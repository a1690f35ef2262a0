use zentao_client::jsonval::{parse_json, JsonValue};

#[test]
fn parses_scalars() {
    assert_eq!(parse_json("null"), Some(JsonValue::Null));
    assert_eq!(parse_json("true"), Some(JsonValue::Bool(true)));
    assert_eq!(parse_json("42"), Some(JsonValue::Num(Some(42))));
    assert_eq!(parse_json("-7"), Some(JsonValue::Num(Some(-7))));
    assert_eq!(parse_json("\"hi\""), Some(JsonValue::Str(String::from("hi"))));
}

#[test]
fn parses_arrays_in_order() {
    let v = parse_json("[1, \"two\", null]").unwrap();
    match v {
        JsonValue::Arr(items) => {
            assert_eq!(items.len(), 3);
            assert_eq!(items[0], JsonValue::Num(Some(1)));
            assert_eq!(items[1], JsonValue::Str(String::from("two")));
            assert_eq!(items[2], JsonValue::Null);
        },
        other => panic!("expected an array, got {:?}", other),
    }
}

#[test]
fn object_fields_are_reachable_by_key() {
    let v = parse_json("{\"a\": 1, \"b\": {\"c\": \"x\"}}").unwrap();
    assert_eq!(v.get_i32("a"), Some(1));
    let b = v.get("b").unwrap();
    assert_eq!(b.get_str("c"), Some(String::from("x")));
    assert!(v.get("missing").is_none());
}

#[test]
fn rejects_malformed_text() {
    assert!(parse_json("{\"a\": ").is_none());
    assert!(parse_json("").is_none());
    assert!(parse_json("{a: 1}").is_none());
}

#[test]
fn non_integral_numbers_carry_no_integer() {
    assert_eq!(parse_json("1.5"), Some(JsonValue::Num(None)));
}

#[test]
fn typed_getters_refuse_other_types() {
    let v = parse_json("{\"n\": \"10\", \"s\": 10, \"b\": 1, \"u\": -1}").unwrap();
    assert_eq!(v.get_i32("n"), None);
    assert_eq!(v.get_str("s"), None);
    assert_eq!(v.get_bool("b"), None);
    assert_eq!(v.get_u64("u"), None);
    assert_eq!(v.get_u64("s"), Some(10));
}

#[test]
fn i32_getter_rejects_out_of_range_numbers() {
    let v = parse_json("{\"n\": 4294967296}").unwrap();
    assert_eq!(v.get_i32("n"), None);
    assert_eq!(v.get_u64("n"), Some(4294967296));
}

#[test]
fn unicode_strings_survive_parsing() {
    let v = parse_json("{\"t\": \"中文\"}").unwrap();
    assert_eq!(v.get_str("t"), Some(String::from("中文")));
}
