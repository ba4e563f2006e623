//! JSON values as plain data, and how they are built and read.
use crate::text::same_text;
use vstd::prelude::*;

verus! {

/// A JSON number.
#[derive(Debug)]
pub enum Number {
    /// An integer that is not negative.
    PosInt(u64),
    /// A signed integer; one that is not negative counts as the `PosInt` of its value.
    NegInt(i64),
    /// Any other number, by the text in which it is written.
    Float(String),
}

/// A JSON value.
///
/// Where a key occurs more than once among the fields of an object, its last
/// occurrence counts.
#[derive(Debug)]
pub enum Json {
    Null,
    Bool(bool),
    Number(Number),
    Text(String),
    Array(Vec<Json>),
    Object(Vec<(String, Json)>),
}

/// The number that a [`Number`] stands for.
pub enum NumberView {
    PosInt(u64),
    NegInt(i64),
    Float(Seq<char>),
}

/// The value that a [`Json`] stands for.
pub enum JsonView {
    Null,
    Bool(bool),
    Number(NumberView),
    Text(Seq<char>),
    Array(Seq<JsonView>),
    Object(Map<Seq<char>, JsonView>),
}

/// The object whose fields are `fields`; of two fields with one key the later counts.
pub open spec fn object_of(fields: Seq<(Seq<char>, JsonView)>) -> Map<Seq<char>, JsonView>
    decreases fields.len(),
{
    if fields.len() == 0 {
        Map::empty()
    } else {
        object_of(fields.drop_last()).insert(fields.last().0, fields.last().1)
    }
}

impl View for Number {
    type V = NumberView;

    open spec fn view(&self) -> NumberView {
        match self {
            Number::PosInt(n) => NumberView::PosInt(*n),
            Number::NegInt(n) => NumberView::NegInt(*n),
            Number::Float(text) => NumberView::Float(text@),
        }
    }
}

impl View for Json {
    type V = JsonView;

    open spec fn view(&self) -> JsonView
        decreases self,
    {
        match self {
            Json::Null => JsonView::Null,
            Json::Bool(b) => JsonView::Bool(*b),
            Json::Number(n) => JsonView::Number(n@),
            Json::Text(text) => JsonView::Text(text@),
            Json::Array(items) => JsonView::Array(
                Seq::new(items@.len(), |i: int|
                    if 0 <= i < items@.len() { items@[i].view() } else { JsonView::Null }),
            ),
            Json::Object(fields) => JsonView::Object(object_with(fields@)),
        }
    }
}

/// The object whose fields are `fields`; of two fields with one key the later counts.
pub open spec fn object_with(fields: Seq<(String, Json)>) -> Map<Seq<char>, JsonView>
    decreases fields,
{
    if fields.len() == 0 {
        Map::empty()
    } else {
        object_with(fields.drop_last()).insert(fields.last().0@, fields.last().1.view())
    }
}

/// The values of some items.
pub open spec fn values(items: Seq<Json>) -> Seq<JsonView> {
    Seq::new(items.len(), |i: int| items[i]@)
}

/// The keys and values of some fields.
pub open spec fn pairs(fields: Seq<(String, Json)>) -> Seq<(Seq<char>, JsonView)> {
    Seq::new(fields.len(), |i: int| (fields[i].0@, fields[i].1@))
}

impl JsonView {
    /// The field `key` of an object, where this is an object that has it.
    pub open spec fn get(self, key: Seq<char>) -> Option<JsonView> {
        match self {
            JsonView::Object(fields) => if fields.contains_key(key) {
                Some(fields[key])
            } else {
                None
            },
            _ => None,
        }
    }

    pub open spec fn as_str(self) -> Option<Seq<char>> {
        match self {
            JsonView::Text(text) => Some(text),
            _ => None,
        }
    }

    pub open spec fn as_u64(self) -> Option<u64> {
        match self {
            JsonView::Number(NumberView::PosInt(n)) => Some(n),
            JsonView::Number(NumberView::NegInt(n)) => if n >= 0 {
                Some(n as u64)
            } else {
                None
            },
            _ => None,
        }
    }

    pub open spec fn as_bool(self) -> Option<bool> {
        match self {
            JsonView::Bool(b) => Some(b),
            _ => None,
        }
    }

    pub open spec fn as_array(self) -> Option<Seq<JsonView>> {
        match self {
            JsonView::Array(items) => Some(items),
            _ => None,
        }
    }

    /// The text in the field `key`, where there is that field and it holds text.
    pub open spec fn text_at(self, key: Seq<char>) -> Option<Seq<char>> {
        match self.get(key) {
            Some(value) => value.as_str(),
            None => None,
        }
    }

    /// The number in the field `key`, where it is an integer that is not negative.
    pub open spec fn u64_at(self, key: Seq<char>) -> Option<u64> {
        match self.get(key) {
            Some(value) => value.as_u64(),
            None => None,
        }
    }

    /// The truth value in the field `key`.
    pub open spec fn bool_at(self, key: Seq<char>) -> Option<bool> {
        match self.get(key) {
            Some(value) => value.as_bool(),
            None => None,
        }
    }

    /// The items of the array in the field `key`.
    pub open spec fn array_at(self, key: Seq<char>) -> Option<Seq<JsonView>> {
        match self.get(key) {
            Some(value) => value.as_array(),
            None => None,
        }
    }
}

/// The text in an optional string.
pub open spec fn opt_text(text: Option<&str>) -> Option<Seq<char>> {
    match text {
        Some(text) => Some(text@),
        None => None,
    }
}

/// The value of an optional value.
pub open spec fn opt_value(value: Option<&Json>) -> Option<JsonView> {
    match value {
        Some(value) => Some(value@),
        None => None,
    }
}

/// The items of an optional array.
pub open spec fn opt_items(items: Option<&Vec<Json>>) -> Option<Seq<JsonView>> {
    match items {
        Some(items) => Some(values(items@)),
        None => None,
    }
}

impl Json {
    /// The field `key` of an object; nothing where this is no object or lacks the field.
    pub fn get(&self, key: &str) -> (value: Option<&Json>)
        ensures
            opt_value(value) == self@.get(key@),
    {
        match self {
            Json::Object(fields) => {
                proof {
                    lemma_object_view(*fields);
                }
                last_with_key(fields, key)
            },
            _ => None,
        }
    }

    /// The text, where this is text.
    pub fn as_str(&self) -> (text: Option<&str>)
        ensures
            opt_text(text) == self@.as_str(),
    {
        match self {
            Json::Text(text) => Some(text.as_str()),
            _ => None,
        }
    }

    /// The number, where this is an integer that is not negative.
    pub fn as_u64(&self) -> (number: Option<u64>)
        ensures
            number == self@.as_u64(),
    {
        match self {
            Json::Number(Number::PosInt(n)) => Some(*n),
            Json::Number(Number::NegInt(n)) => if *n >= 0 {
                Some(*n as u64)
            } else {
                None
            },
            _ => None,
        }
    }

    /// The truth value, where this is one.
    pub fn as_bool(&self) -> (truth: Option<bool>)
        ensures
            truth == self@.as_bool(),
    {
        match self {
            Json::Bool(b) => Some(*b),
            _ => None,
        }
    }

    /// The items, where this is an array.
    pub fn as_array(&self) -> (items: Option<&Vec<Json>>)
        ensures
            opt_items(items) == self@.as_array(),
    {
        match self {
            Json::Array(items) => {
                proof {
                    lemma_array_view(*items);
                }
                Some(items)
            },
            _ => None,
        }
    }

    /// The text in the field `key`.
    pub fn text_at(&self, key: &str) -> (text: Option<&str>)
        ensures
            opt_text(text) == self@.text_at(key@),
    {
        match self.get(key) {
            Some(value) => value.as_str(),
            None => None,
        }
    }

    /// The number in the field `key`, where it is an integer that is not negative.
    pub fn u64_at(&self, key: &str) -> (number: Option<u64>)
        ensures
            number == self@.u64_at(key@),
    {
        match self.get(key) {
            Some(value) => value.as_u64(),
            None => None,
        }
    }

    /// The truth value in the field `key`.
    pub fn bool_at(&self, key: &str) -> (truth: Option<bool>)
        ensures
            truth == self@.bool_at(key@),
    {
        match self.get(key) {
            Some(value) => value.as_bool(),
            None => None,
        }
    }

    /// The items of the array in the field `key`.
    pub fn array_at(&self, key: &str) -> (items: Option<&Vec<Json>>)
        ensures
            opt_items(items) == self@.array_at(key@),
    {
        match self.get(key) {
            Some(value) => value.as_array(),
            None => None,
        }
    }
}

/// An object with the fields `fields`.
pub fn object(fields: Vec<(String, Json)>) -> (value: Json)
    ensures
        value@ == JsonView::Object(object_of(pairs(fields@))),
{
    proof {
        lemma_object_view(fields);
    }
    Json::Object(fields)
}

/// An array of texts.
pub fn array_of_texts(texts: Vec<String>) -> (value: Json)
    ensures
        value@ == JsonView::Array(
            Seq::new(texts@.len(), |i: int| JsonView::Text(texts@[i]@)),
        ),
{
    let mut items: Vec<Json> = Vec::new();
    let mut i: usize = 0;
    while i < texts.len()
        invariant
            i <= texts@.len(),
            items@.len() == i,
            forall|k: int| 0 <= k < i ==> (#[trigger] items@[k])@ == JsonView::Text(texts@[k]@),
        decreases texts@.len() - i,
    {
        items.push(Json::Text(texts[i].clone()));
        i += 1;
    }
    proof {
        lemma_array_view(items);
        assert(values(items@) == Seq::new(texts@.len(), |i: int| JsonView::Text(texts@[i]@)));
    }
    Json::Array(items)
}

/// The value of the last field with the key `key`.
fn last_with_key<'a>(fields: &'a Vec<(String, Json)>, key: &str) -> (value: Option<&'a Json>)
    ensures
        opt_value(value) == JsonView::Object(object_of(pairs(fields@))).get(key@),
{
    let ghost all = pairs(fields@);
    let mut i: usize = fields.len();
    assert(all.take(all.len() as int) == all);
    while i > 0
        invariant
            i <= fields@.len(),
            all == pairs(fields@),
            JsonView::Object(object_of(all)).get(key@) == JsonView::Object(
                object_of(all.take(i as int)),
            ).get(key@),
        decreases i,
    {
        i -= 1;
        proof {
            assert(all.take(i + 1).drop_last() == all.take(i as int));
            assert(all.take(i + 1).last() == (fields@[i as int].0@, fields@[i as int].1@));
        }
        if same_text(fields[i].0.as_str(), key) {
            return Some(&fields[i].1);
        }
    }
    None
}

pub proof fn lemma_array_view(items: Vec<Json>)
    ensures
        Json::Array(items)@ == JsonView::Array(values(items@)),
{
    reveal_with_fuel(<Json as View>::view, 2);
    assert(Json::Array(items)@->Array_0 =~= values(items@));
}

pub proof fn lemma_object_view(fields: Vec<(String, Json)>)
    ensures
        Json::Object(fields)@ == JsonView::Object(object_of(pairs(fields@))),
{
    lemma_object_with(fields@);
}

/// A field whose key does not come again is in the object.
pub proof fn lemma_field(fields: Seq<(Seq<char>, JsonView)>, at: int)
    requires
        0 <= at < fields.len(),
        forall|i: int| at < i < fields.len() ==> (#[trigger] fields[i]).0 != fields[at].0,
    ensures
        JsonView::Object(object_of(fields)).get(fields[at].0) == Some(fields[at].1),
    decreases fields.len(),
{
    let rest = fields.drop_last();
    if at < fields.len() - 1 {
        assert(fields[fields.len() - 1].0 != fields[at].0);
        assert forall|i: int| at < i < rest.len() implies (#[trigger] rest[i]).0 != rest[at].0 by {
            assert(rest[i] == fields[i]);
        }
        lemma_field(rest, at);
    }
}

proof fn lemma_object_with(fields: Seq<(String, Json)>)
    ensures
        object_with(fields) == object_of(pairs(fields)),
    decreases fields.len(),
{
    reveal_with_fuel(object_with, 2);
    if fields.len() > 0 {
        lemma_object_with(fields.drop_last());
        assert(pairs(fields).drop_last() == pairs(fields.drop_last()));
    }
}

/// An object has the fields of its map, and what is no object has none.
pub proof fn law_fields_of_an_object(value: JsonView, key: Seq<char>)
    ensures
        value matches JsonView::Object(fields) ==> {
            &&& value.get(key) is Some <==> fields.dom().contains(key)
            &&& fields.dom().contains(key) ==> value.get(key) == Some(fields[key])
        },
        !(value is Object) ==> value.get(key) is None,
{
}

/// A field is read as a text, a number, a truth value or an array exactly where it holds one,
/// and then what it holds is read.
pub proof fn law_fields_by_kind(
    value: JsonView,
    key: Seq<char>,
    text: Seq<char>,
    b: bool,
    items: Seq<JsonView>,
    n: u64,
)
    ensures
        value.text_at(key) == Some(text) <==> value.get(key) == Some(JsonView::Text(text)),
        value.bool_at(key) == Some(b) <==> value.get(key) == Some(JsonView::Bool(b)),
        value.array_at(key) == Some(items) <==> value.get(key) == Some(JsonView::Array(items)),
        value.u64_at(key) == Some(n) <==> (value.get(key) == Some(
            JsonView::Number(NumberView::PosInt(n)),
        ) || n <= i64::MAX && value.get(key) == Some(
            JsonView::Number(NumberView::NegInt(n as i64)),
        )),
{
}

/// To add a field to some fields sets it in the object, whether or not its key was there.
pub proof fn law_later_field_counts(
    fields: Seq<(Seq<char>, JsonView)>,
    key: Seq<char>,
    value: JsonView,
)
    ensures
        object_of(fields.push((key, value))) == object_of(fields).insert(key, value),
        object_of(Seq::empty()) == Map::<Seq<char>, JsonView>::empty(),
{
    assert(fields.push((key, value)).drop_last() =~= fields);
}

/// A value stands for what it holds: texts, truth values and numbers for themselves, an array
/// for its items in order, and an object for its fields.
pub proof fn law_values_stand_for_what_they_hold(
    text: String,
    b: bool,
    unsigned: u64,
    signed: i64,
    items: Vec<Json>,
    fields: Vec<(String, Json)>,
)
    ensures
        Json::Null@ == JsonView::Null,
        Json::Bool(b)@ == JsonView::Bool(b),
        Json::Text(text)@ == JsonView::Text(text@),
        Json::Number(Number::PosInt(unsigned))@ == JsonView::Number(NumberView::PosInt(unsigned)),
        Json::Number(Number::NegInt(signed))@ == JsonView::Number(NumberView::NegInt(signed)),
        Json::Number(Number::Float(text))@ == JsonView::Number(NumberView::Float(text@)),
        Json::Array(items)@ matches JsonView::Array(held) && held.len() == items@.len() && forall|
            i: int,
        |
            0 <= i < held.len() ==> #[trigger] held[i] == items@[i]@,
        Json::Object(fields)@ is Object,
        forall|i: int|
            0 <= i < fields@.len() && (forall|j: int|
                i < j < fields@.len() ==> (#[trigger] fields@[j]).0@ != fields@[i].0@)
                ==> Json::Object(fields)@.get((#[trigger] fields@[i]).0@) == Some(fields@[i].1@),
        forall|key: Seq<char>|
            (#[trigger] Json::Object(fields)@.get(key)) is Some ==> exists|i: int|
                0 <= i < fields@.len() && (#[trigger] fields@[i]).0@ == key,
{
    lemma_array_view(items);
    lemma_object_view(fields);
    let all = pairs(fields@);
    assert forall|i: int|
        0 <= i < fields@.len() && (forall|j: int|
            i < j < fields@.len() ==> (#[trigger] fields@[j]).0@ != fields@[i].0@) implies Json::Object(
        fields,
    )@.get((#[trigger] fields@[i]).0@) == Some(fields@[i].1@) by {
        assert forall|j: int| i < j < all.len() implies (#[trigger] all[j]).0 != all[i].0 by {
            assert(fields@[j].0@ != fields@[i].0@);
        }
        lemma_field(all, i);
    }
    assert forall|key: Seq<char>| (#[trigger] Json::Object(fields)@.get(key)) is Some implies exists|
        i: int,
    |
        0 <= i < fields@.len() && (#[trigger] fields@[i]).0@ == key by {
        lemma_key_of_a_field(all, key);
        let i = choose|i: int| 0 <= i < all.len() && (#[trigger] all[i]).0 == key;
        assert(fields@[i].0@ == key);
    }
}

/// A key of an object is that of one of its fields.
pub proof fn lemma_key_of_a_field(fields: Seq<(Seq<char>, JsonView)>, key: Seq<char>)
    requires
        object_of(fields).contains_key(key),
    ensures
        exists|i: int| 0 <= i < fields.len() && (#[trigger] fields[i]).0 == key,
    decreases fields.len(),
{
    if fields.last().0 != key {
        let rest = fields.drop_last();
        lemma_key_of_a_field(rest, key);
        let i = choose|i: int| 0 <= i < rest.len() && (#[trigger] rest[i]).0 == key;
        assert(fields[i].0 == key);
    } else {
        assert(fields[fields.len() - 1].0 == key);
    }
}

/// An optional text, value or array stands for what it holds, and for nothing where it holds
/// nothing.
pub proof fn law_options_stand_for_what_they_hold(text: &str, value: &Json, items: &Vec<Json>)
    ensures
        opt_text(Some(text)) == Some(text@),
        opt_text(None) is None,
        opt_value(Some(value)) == Some(value@),
        opt_value(None) is None,
        opt_items(Some(items)) matches Some(held) && held.len() == items@.len() && forall|i: int|
            0 <= i < held.len() ==> #[trigger] held[i] == items@[i]@,
        opt_items(None) is None,
{
}

} // verus!
