use mimir_bridge::exchange::{
    compact_text, display_text, from_value, places_text, pretty_text, read, to_value,
};
use mimir_bridge::json::{object, Json, Number};
use mimir_bridge::text::{decimal_text, join, same_text};

fn same(text: &str) {
    let value: serde_json::Value = serde_json::from_str(text).unwrap();
    let taken = from_value(&value);
    let given = to_value(&taken);
    assert_eq!(given, value);
    assert_eq!(given.to_string(), value.to_string());
    assert_eq!(compact_text(&taken).unwrap(), serde_json::to_string(&value).unwrap());
    assert_eq!(pretty_text(&taken).unwrap(), serde_json::to_string_pretty(&value).unwrap());
    assert_eq!(display_text(&taken), value.to_string());
    assert_eq!(places_text(&taken, 3), value.as_f64().map(|number| format!("{:.3}", number)));
    assert_eq!(places_text(&taken, 0), value.as_f64().map(|number| format!("{:.0}", number)));
}

#[test]
fn values_go_in_and_out() {
    for text in [
        "null",
        "true",
        "false",
        "0",
        "18446744073709551615",
        "-1",
        "-9223372036854775808",
        "0.1",
        "0.95",
        "-0.0",
        "1e300",
        "5e-324",
        "2.2250738585072014e-308",
        "123456789012345678901234567890",
        "1.7976931348623157e308",
        "0.30000000000000004",
        "\"\"",
        "\"tab\\t \\u00e9 \\ud83d\\ude00\"",
        "[]",
        "{}",
        "[1,[2,[3.5]],{\"a\":null}]",
        "{\"b\":[{}],\"a\":{\"x\":-2,\"y\":\"z\"},\"c\":1.25e-7}",
    ] {
        same(text);
    }
}

#[test]
fn floats_read_back_as_they_are_written() {
    let mut bits: u64 = 0x3fb9_9999_9999_999a;
    for _ in 0..20000 {
        bits = bits.wrapping_mul(6364136223846793005).wrapping_add(1442695040888963407);
        let number = f64::from_bits(bits);
        if number.is_finite() {
            let value = serde_json::Value::from(number);
            let taken = from_value(&value);
            assert!(matches!(taken, Json::Number(Number::Float(_))));
            assert_eq!(to_value(&taken), value);
        }
    }
}

#[test]
fn numbers_by_kind() {
    assert!(matches!(read("7"), Ok(Json::Number(Number::PosInt(7)))));
    assert!(matches!(read("-7"), Ok(Json::Number(Number::NegInt(-7)))));
    match read("7.50") {
        Ok(Json::Number(Number::Float(text))) => assert_eq!(text, "7.5"),
        _ => panic!(),
    }
}

#[test]
fn numbers_settle() {
    assert_eq!(compact_text(&Json::Number(Number::NegInt(5))).unwrap(), "5");
    assert_eq!(compact_text(&Json::Number(Number::Float("0.80".to_string()))).unwrap(), "0.8");
    assert_eq!(compact_text(&Json::Number(Number::Float("7".to_string()))).unwrap(), "7.0");
    assert_eq!(compact_text(&Json::Number(Number::Float("inf".to_string()))).unwrap(), "null");
    assert_eq!(compact_text(&Json::Number(Number::Float("what".to_string()))).unwrap(), "null");
    assert_eq!(places_text(&Json::Number(Number::Float("what".to_string())), 3), None);
}

#[test]
fn integers_that_are_not_negative() {
    assert_eq!(Json::Number(Number::NegInt(5)).as_u64(), Some(5));
    assert_eq!(Json::Number(Number::NegInt(0)).as_u64(), Some(0));
    assert_eq!(Json::Number(Number::NegInt(-1)).as_u64(), None);
    assert_eq!(Json::Number(Number::PosInt(u64::MAX)).as_u64(), Some(u64::MAX));
    assert_eq!(display_text(&Json::Number(Number::NegInt(5))), "5");
}

#[test]
fn the_last_of_equal_keys_counts() {
    let value = object(vec![
        ("a".to_string(), Json::Bool(true)),
        ("b".to_string(), Json::Null),
        ("a".to_string(), Json::Bool(false)),
    ]);
    assert_eq!(value.bool_at("a"), Some(false));
    assert!(value.get("c").is_none());
    assert_eq!(compact_text(&value).unwrap(), r#"{"a":false,"b":null}"#);
    assert_eq!(read(r#"{"a":1,"a":2}"#).unwrap().u64_at("a"), Some(2));
}

#[test]
fn values_by_kind() {
    let value = read(r#"{"t":"x","n":3,"m":-3,"f":1.5,"b":true,"l":[1,2],"o":{}}"#).unwrap();
    assert_eq!(value.text_at("t"), Some("x"));
    assert_eq!(value.text_at("n"), None);
    assert_eq!(value.u64_at("n"), Some(3));
    assert_eq!(value.u64_at("m"), None);
    assert_eq!(value.u64_at("f"), None);
    assert_eq!(value.bool_at("b"), Some(true));
    assert_eq!(value.bool_at("t"), None);
    assert_eq!(value.array_at("l").unwrap().len(), 2);
    assert!(value.array_at("o").is_none());
    assert!(value.get("zz").is_none());
    assert!(Json::Null.get("t").is_none());
}

#[test]
fn text_that_is_no_json() {
    assert_eq!(read("{").unwrap_err(), "EOF while parsing an object at line 1 column 1");
    for blank in ["", " \n\t\r", "\u{a0}", " \u{3000}", "\u{b}"] {
        assert!(read(blank).is_err());
    }
    assert_eq!(read("1 2").unwrap_err(), "trailing characters at line 1 column 3");
}

#[test]
fn decimal_numerals() {
    for n in [0, 7, 9, 10, 99, 100, 120, 1234567890, u64::MAX] {
        assert_eq!(decimal_text(n), n.to_string());
    }
}

#[test]
fn joining_and_comparing() {
    assert_eq!(join(&vec![], ", "), "");
    assert_eq!(join(&vec!["a".to_string()], ", "), "a");
    assert_eq!(join(&vec!["a".to_string(), "".to_string(), "c".to_string()], ", "), "a, , c");
    assert!(same_text("caf\u{e9}", "caf\u{e9}"));
    assert!(!same_text("a", "ab"));
}
