//! The exchange of JSON values with `serde_json`: taking values in, giving them out,
//! reading them from text and writing them as text.
use crate::json;
use crate::json::{Json, JsonView, Number, NumberView};
use vstd::prelude::*;

verus! {

/// A JSON value of `serde_json`.
#[verifier::external_type_specification]
#[verifier::external_body]
pub struct ExValue(serde_json::Value);

/// The fields of a JSON object of `serde_json`.
#[verifier::external_type_specification]
#[verifier::external_body]
#[verifier::reject_recursive_types(K)]
#[verifier::reject_recursive_types(V)]
pub struct ExMap<K, V>(serde_json::Map<K, V>);

/// What a `serde_json::Value` holds.
pub uninterp spec fn json_of(value: serde_json::Value) -> JsonView;

/// What a `serde_json::Map` holds.
pub uninterp spec fn fields_of(map: serde_json::Map<String, serde_json::Value>) -> Map<
    Seq<char>,
    JsonView,
>;

/// The value that `serde_json` makes of the text of a number that is no integer; nothing
/// where the text is that of no finite number.
pub uninterp spec fn float_value(text: Seq<char>) -> Option<JsonView>;

/// What `serde_json::from_str` makes of a text: a value, or the message of its error.
pub uninterp spec fn parsed(text: Seq<char>) -> Result<JsonView, Seq<char>>;

/// The text that `serde_json::to_string` makes of a value. The fields of an object come in
/// the order of their keys, so the object alone decides it.
pub uninterp spec fn compact(value: JsonView) -> Seq<char>;

/// The text that `serde_json::to_string_pretty` makes of a value, with the fields of an
/// object in the order of their keys.
pub uninterp spec fn pretty(value: JsonView) -> Seq<char>;

/// The number that `serde_json::Value::as_f64` gives, to some number of decimal places.
pub uninterp spec fn to_places(value: JsonView, places: nat) -> Option<Seq<char>>;

/// A `serde_json::Value`, opened by one level.
enum Parts<'a> {
    Null,
    Bool(bool),
    Number(Number),
    Text(&'a String),
    Array(&'a Vec<serde_json::Value>),
    Object(Vec<(&'a String, &'a serde_json::Value)>),
}

/// What some values of `serde_json` hold.
spec fn held(items: Seq<serde_json::Value>) -> Seq<JsonView> {
    Seq::new(items.len(), |i: int| json_of(items[i]))
}

/// What some borrowed fields hold.
spec fn held_refs(fields: Seq<(&String, &serde_json::Value)>) -> Seq<(Seq<char>, JsonView)> {
    Seq::new(fields.len(), |i: int| (fields[i].0@, json_of(*fields[i].1)))
}

/// Whether no two fields have one key.
spec fn distinct_keys(fields: Seq<(Seq<char>, JsonView)>) -> bool {
    forall|i: int, j: int|
        0 <= i < j < fields.len() ==> (#[trigger] fields[i]).0 != (#[trigger] fields[j]).0
}

/// What an opened value holds.
spec fn held_parts(parts: Parts<'_>) -> JsonView {
    match parts {
        Parts::Null => JsonView::Null,
        Parts::Bool(b) => JsonView::Bool(b),
        Parts::Number(n) => JsonView::Number(n@),
        Parts::Text(text) => JsonView::Text(text@),
        Parts::Array(items) => JsonView::Array(held(items@)),
        Parts::Object(fields) => JsonView::Object(json::object_of(held_refs(fields@))),
    }
}

/// The number as `serde_json` keeps it: an integer by its sign, any other number by the
/// text that it is written with, and `null` for what is no finite number.
pub open spec fn settled_number(number: NumberView) -> JsonView {
    match number {
        NumberView::PosInt(n) => JsonView::Number(NumberView::PosInt(n)),
        NumberView::NegInt(n) => if n < 0 {
            JsonView::Number(NumberView::NegInt(n))
        } else {
            JsonView::Number(NumberView::PosInt(n as u64))
        },
        NumberView::Float(text) => match float_value(text) {
            Some(value) => value,
            None => JsonView::Null,
        },
    }
}

/// The value as `serde_json` keeps it: the same value with each number settled.
pub open spec fn settled(value: JsonView) -> JsonView
    decreases value,
{
    match value {
        JsonView::Number(number) => settled_number(number),
        JsonView::Array(items) => JsonView::Array(
            Seq::new(
                items.len(),
                |i: int|
                    if 0 <= i < items.len() {
                        settled(items[i])
                    } else {
                        JsonView::Null
                    },
            ),
        ),
        JsonView::Object(fields) => JsonView::Object(
            Map::new(
                |key: Seq<char>| fields.contains_key(key),
                |key: Seq<char>|
                    if fields.contains_key(key) {
                        settled(fields[key])
                    } else {
                        JsonView::Null
                    },
            ),
        ),
        _ => value,
    }
}

/// Opens a `serde_json::Value` by its variants, its object by `Map::iter`, and its number
/// by `Number::as_u64`, `Number::as_i64` and, where it is no integer, its `Display`. The
/// parts hold what the value holds. No two fields have one key. A number comes settled: an
/// integer is a `NegInt` only below zero, and the text of any other number reads back as
/// that number, for `Display` writes the shortest text that does.
#[verifier::external_body]
fn unpack(value: &serde_json::Value) -> (parts: Parts<'_>)
    ensures
        json_of(*value) == held_parts(parts),
        parts matches Parts::Number(n) ==> settled_number(n@) == JsonView::Number(n@),
        parts matches Parts::Object(fields) ==> distinct_keys(held_refs(fields@)),
{
    match value {
        serde_json::Value::Null => Parts::Null,
        serde_json::Value::Bool(b) => Parts::Bool(*b),
        serde_json::Value::Number(n) => match (n.as_u64(), n.as_i64()) {
            (Some(n), _) => Parts::Number(Number::PosInt(n)),
            (None, Some(n)) => Parts::Number(Number::NegInt(n)),
            (None, None) => Parts::Number(Number::Float(n.to_string())),
        },
        serde_json::Value::String(text) => Parts::Text(text),
        serde_json::Value::Array(items) => Parts::Array(items),
        serde_json::Value::Object(fields) => Parts::Object(fields.iter().collect()),
    }
}

/// `serde_json::Value::Null`.
#[verifier::external_body]
fn null_value() -> (value: serde_json::Value)
    ensures
        json_of(value) == JsonView::Null,
{
    serde_json::Value::Null
}

/// `serde_json::Value::Bool` of a truth value.
#[verifier::external_body]
fn bool_value(b: bool) -> (value: serde_json::Value)
    ensures
        json_of(value) == JsonView::Bool(b),
{
    serde_json::Value::Bool(b)
}

/// `serde_json::Value::from` of an unsigned integer.
#[verifier::external_body]
fn unsigned_value(n: u64) -> (value: serde_json::Value)
    ensures
        json_of(value) == JsonView::Number(NumberView::PosInt(n)),
{
    serde_json::Value::from(n)
}

/// `serde_json::Value::from` of a signed integer, which keeps one that is not negative as
/// an unsigned integer.
#[verifier::external_body]
fn signed_value(n: i64) -> (value: serde_json::Value)
    ensures
        json_of(value) == settled_number(NumberView::NegInt(n)),
{
    serde_json::Value::from(n)
}

/// `serde_json::Number::from_f64` of the number that `str::parse` of std reads in a text;
/// nothing where it reads none or one that is not finite.
#[verifier::external_body]
fn number_value(text: &str) -> (result: Option<serde_json::Value>)
    ensures
        match result {
            Some(value) => float_value(text@) == Some(json_of(value)),
            None => float_value(text@) is None,
        },
{
    text.parse().ok().and_then(serde_json::Number::from_f64).map(serde_json::Value::Number)
}

/// `serde_json::Value::String` of a text.
#[verifier::external_body]
fn text_value(text: String) -> (value: serde_json::Value)
    ensures
        json_of(value) == JsonView::Text(text@),
{
    serde_json::Value::String(text)
}

/// `serde_json::Value::Array` of some items.
#[verifier::external_body]
fn array_value(items: Vec<serde_json::Value>) -> (value: serde_json::Value)
    ensures
        json_of(value) == JsonView::Array(held(items@)),
{
    serde_json::Value::Array(items)
}

/// `serde_json::Map::new`, which makes a map without fields.
#[verifier::external_body]
fn new_map() -> (made: serde_json::Map<String, serde_json::Value>)
    ensures
        fields_of(made) == json::object_of(Seq::empty()),
{
    serde_json::Map::new()
}

/// `serde_json::Map::insert`, which adds a field, or replaces its value where the map has the
/// key. The value that was there before is dropped.
#[verifier::external_body]
fn insert_field(
    map: &mut serde_json::Map<String, serde_json::Value>,
    key: String,
    value: serde_json::Value,
)
    ensures
        fields_of(*final(map)) == fields_of(*old(map)).insert(key@, json_of(value)),
{
    map.insert(key, value);
}

/// `serde_json::Value::Object` of a map.
#[verifier::external_body]
fn object_value(map: serde_json::Map<String, serde_json::Value>) -> (value: serde_json::Value)
    ensures
        json_of(value) == JsonView::Object(fields_of(map)),
{
    serde_json::Value::Object(map)
}

/// `serde_json::from_str` of a text, for any JSON value. A blank text holds none: what JSON
/// takes for white space is skipped, and nothing else that is blank begins a value.
#[verifier::external_body]
fn read_value(text: &str) -> (result: Result<serde_json::Value, String>)
    ensures
        match result {
            Ok(value) => parsed(text@) == Ok::<JsonView, Seq<char>>(json_of(value)),
            Err(message) => parsed(text@) == Err::<JsonView, Seq<char>>(message@),
        },
        crate::text::is_blank(text@) ==> result is Err,
{
    serde_json::from_str(text).map_err(|error| error.to_string())
}

/// `serde_json::to_string` of a value. It does not fail: the keys of an object are texts,
/// and nothing else in a `serde_json::Value` can fail to be written.
#[verifier::external_body]
fn write_compact(value: &serde_json::Value) -> (result: Result<String, String>)
    ensures
        result is Ok,
        result->Ok_0@ == compact(json_of(*value)),
{
    serde_json::to_string(value).map_err(|error| error.to_string())
}

/// `serde_json::to_string_pretty` of a value. It does not fail, as `serde_json::to_string`
/// does not. An object without fields is written as `{}`.
#[verifier::external_body]
fn write_pretty(value: &serde_json::Value) -> (result: Option<String>)
    ensures
        result is Some,
        result->Some_0@ == pretty(json_of(*value)),
        json_of(*value) == JsonView::Object(Map::empty()) ==> result->Some_0@ == "{}"@,
{
    serde_json::to_string_pretty(value).ok()
}

/// `to_string` of a `serde_json::Value`, by its `Display`, which writes as
/// `serde_json::to_string` does. An unsigned integer shows as its decimal numeral.
#[verifier::external_body]
fn write_display(value: &serde_json::Value) -> (text: String)
    ensures
        text@ == compact(json_of(*value)),
        json_of(*value) matches JsonView::Number(NumberView::PosInt(n)) ==> text@
            == crate::text::decimal(n as nat),
{
    value.to_string()
}

/// `serde_json::Value::as_f64`, written by `format` of std to `places` decimal places. Every
/// number has one, and nothing else has.
#[verifier::external_body]
fn write_places(value: &serde_json::Value, places: u8) -> (result: Option<String>)
    ensures
        match result {
            Some(text) => to_places(json_of(*value), places as nat) == Some(text@),
            None => to_places(json_of(*value), places as nat) is None,
        },
        result is Some <==> json_of(*value) is Number,
{
    value.as_f64().map(|number| format!("{:.*}", usize::from(places), number))
}

/// Takes a value in. What is taken in is settled, so [`to_value`] gives out what was held.
pub fn from_value(value: &serde_json::Value) -> (taken: Json)
    ensures
        taken@ == json_of(*value),
        settled(taken@) == json_of(*value),
    decreases json_of(*value),
{
    match unpack(value) {
        Parts::Null => Json::Null,
        Parts::Bool(b) => Json::Bool(b),
        Parts::Number(n) => Json::Number(n),
        Parts::Text(text) => Json::Text(text.clone()),
        Parts::Array(items) => {
            let mut taken: Vec<Json> = Vec::new();
            let mut i: usize = 0;
            while i < items.len()
                invariant
                    i <= items@.len(),
                    json_of(*value) == JsonView::Array(held(items@)),
                    taken@.len() == i,
                    forall|k: int| 0 <= k < i ==> (#[trigger] taken@[k])@ == json_of(items@[k]),
                    forall|k: int| 0 <= k < i ==> settled((#[trigger] taken@[k])@) == taken@[k]@,
                decreases items@.len() - i,
            {
                proof {
                    let inner = json_of(*value)->Array_0;
                    assert(inner[i as int] == json_of(items@[i as int]));
                    assert(decreases_to!(json_of(*value) => inner));
                    assert(decreases_to!(inner => inner[i as int]));
                }
                taken.push(from_value(&items[i]));
                i += 1;
            }
            proof {
                json::lemma_array_view(taken);
                assert(json::values(taken@) == held(items@));
                lemma_settled_array(json::values(taken@), json::values(taken@));
            }
            Json::Array(taken)
        },
        Parts::Object(fields) => {
            let ghost outer = held_refs(fields@);
            let mut taken: Vec<(String, Json)> = Vec::new();
            let mut i: usize = 0;
            while i < fields.len()
                invariant
                    i <= fields@.len(),
                    outer == held_refs(fields@),
                    distinct_keys(outer),
                    json_of(*value) == JsonView::Object(json::object_of(outer)),
                    taken@.len() == i,
                    forall|k: int|
                        0 <= k < i ==> (#[trigger] taken@[k]).0@ == fields@[k].0@ && taken@[k].1@
                            == json_of(*fields@[k].1) && settled(taken@[k].1@) == taken@[k].1@,
                decreases fields@.len() - i,
            {
                proof {
                    json::lemma_field(outer, i as int);
                    let inner = json_of(*value)->Object_0;
                    let key = outer[i as int].0;
                    assert(decreases_to!(json_of(*value) => inner));
                    lemma_object_finite(outer);
                    assert(decreases_to!(inner => inner[key]));
                }
                taken.push((fields[i].0.clone(), from_value(fields[i].1)));
                i += 1;
            }
            proof {
                json::lemma_object_view(taken);
                assert(json::pairs(taken@) == outer);
                lemma_settled_object(json::pairs(taken@), json::pairs(taken@));
            }
            Json::Object(taken)
        },
    }
}

/// Gives a value out.
pub fn to_value(given: &Json) -> (value: serde_json::Value)
    ensures
        json_of(value) == settled(given@),
    decreases given,
{
    match given {
        Json::Null => null_value(),
        Json::Bool(b) => bool_value(*b),
        Json::Number(number) => match number {
            Number::PosInt(n) => unsigned_value(*n),
            Number::NegInt(n) => signed_value(*n),
            Number::Float(text) => match number_value(text.as_str()) {
                Some(value) => value,
                None => null_value(),
            },
        },
        Json::Text(text) => text_value(text.clone()),
        Json::Array(items) => {
            let mut out: Vec<serde_json::Value> = Vec::new();
            let mut i: usize = 0;
            while i < items.len()
                invariant
                    i <= items@.len(),
                    given == Json::Array(*items),
                    out@.len() == i,
                    forall|k: int| 0 <= k < i ==> json_of(#[trigger] out@[k]) == settled(items@[k]@),
                decreases items@.len() - i,
            {
                assert(decreases_to!(given => given->Array_0));
                assert(decreases_to!(items@ => items@[i as int]));
                out.push(to_value(&items[i]));
                i += 1;
            }
            proof {
                json::lemma_array_view(*items);
                lemma_settled_array(json::values(items@), held(out@));
            }
            array_value(out)
        },
        Json::Object(fields) => {
            let mut out = new_map();
            let ghost mut done: Seq<(Seq<char>, JsonView)> = Seq::empty();
            let mut i: usize = 0;
            while i < fields.len()
                invariant
                    i <= fields@.len(),
                    given == Json::Object(*fields),
                    done.len() == i,
                    fields_of(out) == json::object_of(done),
                    forall|k: int|
                        0 <= k < i ==> (#[trigger] done[k]).0 == fields@[k].0@ && done[k].1
                            == settled(fields@[k].1@),
                decreases fields@.len() - i,
            {
                assert(decreases_to!(given => given->Object_0));
                assert(decreases_to!(fields@ => fields@[i as int]));
                assert(decreases_to!(fields@[i as int] => fields@[i as int].1));
                insert_field(&mut out, fields[i].0.clone(), to_value(&fields[i].1));
                proof {
                    let field = (fields@[i as int].0@, settled(fields@[i as int].1@));
                    assert(done.push(field).drop_last() == done);
                    done = done.push(field);
                }
                i += 1;
            }
            proof {
                json::lemma_object_view(*fields);
                lemma_settled_object(json::pairs(fields@), done);
            }
            object_value(out)
        },
    }
}

/// Reads a JSON value in a text; gives the message of the error where it holds none, as a
/// blank text does.
pub fn read(text: &str) -> (result: Result<Json, String>)
    ensures
        match result {
            Ok(value) => parsed(text@) == Ok::<JsonView, Seq<char>>(value@) && settled(value@)
                == value@,
            Err(message) => parsed(text@) == Err::<JsonView, Seq<char>>(message@),
        },
        crate::text::is_blank(text@) ==> result is Err,
{
    match read_value(text) {
        Ok(value) => Ok(from_value(&value)),
        Err(message) => Err(message),
    }
}

/// Writes a value without white space. There is no value for which that fails.
pub fn compact_text(value: &Json) -> (result: Result<String, String>)
    ensures
        result matches Ok(text) && text@ == compact(settled(value@)),
{
    write_compact(&to_value(value))
}

/// The text of a value over several lines: `{}` for an object without fields.
pub open spec fn pretty_lines(value: JsonView) -> Seq<char> {
    if value == JsonView::Object(Map::empty()) {
        "{}"@
    } else {
        pretty(settled(value))
    }
}

/// Writes a value over several lines. There is no value for which that fails.
pub fn pretty_text(value: &Json) -> (result: Option<String>)
    ensures
        result matches Some(text) && text@ == pretty_lines(value@),
{
    proof {
        let nothing = Map::<Seq<char>, JsonView>::empty();
        assert(settled(JsonView::Object(nothing))->Object_0 =~= nothing);
    }
    write_pretty(&to_value(value))
}

/// The text that a value shows as.
pub fn display_text(value: &Json) -> (text: String)
    ensures
        text@ == compact(settled(value@)),
        value@.as_u64() matches Some(n) ==> text@ == crate::text::decimal(n as nat),
{
    write_display(&to_value(value))
}

/// A number to `places` decimal places; nothing for what is no number.
pub fn places_text(value: &Json, places: u8) -> (result: Option<String>)
    ensures
        match result {
            Some(text) => to_places(settled(value@), places as nat) == Some(text@),
            None => to_places(settled(value@), places as nat) is None,
        },
        result is Some <==> settled(value@) is Number,
{
    write_places(&to_value(value), places)
}

proof fn lemma_settled_array(items: Seq<JsonView>, out: Seq<JsonView>)
    requires
        out.len() == items.len(),
        forall|i: int| 0 <= i < items.len() ==> settled(items[i]) == #[trigger] out[i],
    ensures
        settled(JsonView::Array(items)) == JsonView::Array(out),
{
    reveal_with_fuel(settled, 2);
    assert(settled(JsonView::Array(items))->Array_0 =~= out);
}

proof fn lemma_settled_object(
    fields: Seq<(Seq<char>, JsonView)>,
    out: Seq<(Seq<char>, JsonView)>,
)
    requires
        out.len() == fields.len(),
        forall|i: int|
            0 <= i < fields.len() ==> (#[trigger] out[i]).0 == fields[i].0 && out[i].1 == settled(
                fields[i].1,
            ),
    ensures
        settled(JsonView::Object(json::object_of(fields))) == JsonView::Object(
            json::object_of(out),
        ),
{
    reveal_with_fuel(settled, 2);
    lemma_settled_fields(fields, out);
    assert(settled(JsonView::Object(json::object_of(fields)))->Object_0 =~= json::object_of(out));
}

proof fn lemma_settled_fields(
    fields: Seq<(Seq<char>, JsonView)>,
    out: Seq<(Seq<char>, JsonView)>,
)
    requires
        out.len() == fields.len(),
        forall|i: int|
            0 <= i < fields.len() ==> (#[trigger] out[i]).0 == fields[i].0 && out[i].1 == settled(
                fields[i].1,
            ),
    ensures
        forall|key: Seq<char>|
            #[trigger] json::object_of(out).contains_key(key) <==> json::object_of(
                fields,
            ).contains_key(key),
        forall|key: Seq<char>|
            json::object_of(fields).contains_key(key) ==> #[trigger] json::object_of(out)[key]
                == settled(json::object_of(fields)[key]),
    decreases fields.len(),
{
    if fields.len() > 0 {
        lemma_settled_fields(fields.drop_last(), out.drop_last());
        assert(out.last() == out[out.len() - 1]);
    }
}

proof fn lemma_object_finite(fields: Seq<(Seq<char>, JsonView)>)
    ensures
        json::object_of(fields).dom().finite(),
    decreases fields.len(),
{
    if fields.len() > 0 {
        lemma_object_finite(fields.drop_last());
    }
}

/// To settle a value leaves its texts, truth values and integers as they are, and keeps the
/// number of items and the keys of the fields; any other number becomes what `serde_json` makes
/// of its text, and null where that is nothing.
pub proof fn law_settling_keeps(value: JsonView, key: Seq<char>)
    ensures
        value is Null || value is Bool || value is Text ==> settled(value) == value,
        value matches JsonView::Number(NumberView::PosInt(_)) ==> settled(value) == value,
        value matches JsonView::Number(NumberView::NegInt(n)) ==> (n < 0 ==> settled(value)
            == value),
        value.as_u64() matches Some(n) ==> settled(value) == JsonView::Number(
            NumberView::PosInt(n),
        ),
        value matches JsonView::Number(NumberView::Float(text)) ==> {
            &&& float_value(text) matches Some(made) ==> settled(value) == made
            &&& float_value(text) is None ==> settled(value) == JsonView::Null
        },
        value matches JsonView::Array(items) ==> {
            &&& settled(value) matches JsonView::Array(kept)
            &&& kept.len() == items.len()
            &&& forall|i: int| 0 <= i < items.len() ==> #[trigger] kept[i] == settled(items[i])
        },
        value is Object ==> settled(value) is Object && (value.get(key) is Some <==> settled(
            value,
        ).get(key) is Some),
        value.get(key) matches Some(field) ==> settled(value).get(key) == Some(settled(field)),
{
    if value is Object {
        assert(settled(value)->Object_0.contains_key(key) <==> value->Object_0.contains_key(key));
    }
}

/// An object without fields is the only value whose lines are known to be `{}`; those of any
/// other are what `serde_json` writes of it.
pub proof fn law_lines_of_a_value(value: JsonView)
    ensures
        (forall|key: Seq<char>| (#[trigger] value.get(key)) is None) && value is Object
            ==> pretty_lines(value) == "{}"@,
        forall|key: Seq<char>|
            (#[trigger] value.get(key)) is Some ==> pretty_lines(value) == pretty(settled(value)),
        !(value is Object) ==> pretty_lines(value) == pretty(settled(value)),
{
    if value is Object && forall|key: Seq<char>| (#[trigger] value.get(key)) is None {
        assert forall|key: Seq<char>| !value->Object_0.contains_key(key) by {
            assert(value.get(key) is None);
        }
        assert(value->Object_0 =~= Map::<Seq<char>, JsonView>::empty());
    }
}

} // verus!
