use fieri::json::{json_to_bytes, parse_json, Json};
use fieri::types::Number;

fn ser(v: &Json) -> String {
    String::from_utf8(json_to_bytes(v)).unwrap()
}

#[test]
fn parses_scalars() {
    assert!(matches!(parse_json(b"null"), Some(Json::Null)));
    assert!(matches!(parse_json(b"true"), Some(Json::Bool(true))));
    assert!(matches!(parse_json(b"false"), Some(Json::Bool(false))));
    match parse_json(b" 42 ") {
        Some(Json::Num(n)) => assert_eq!(n, b"42"),
        other => panic!("expected a number, got {:?}", other.is_some()),
    }
    match parse_json(b"-0.5e+3") {
        Some(Json::Num(n)) => assert_eq!(n, b"-0.5e+3"),
        _ => panic!("expected a number"),
    }
}

#[test]
fn parses_strings_with_escapes() {
    match parse_json(b"\"a\\nb\\t\\\"c\\\\d\"") {
        Some(Json::Str(s)) => assert_eq!(s, "a\nb\t\"c\\d"),
        _ => panic!("expected a string"),
    }
    // A BMP code point written as an escape decodes to its character.
    match parse_json(b"\"\\u0041\\u00e9\"") {
        Some(Json::Str(s)) => assert_eq!(s, "A\u{e9}"),
        _ => panic!("expected a string"),
    }
    // Multi-byte UTF-8 passes through verbatim.
    match parse_json("\"caf\u{e9}\"".as_bytes()) {
        Some(Json::Str(s)) => assert_eq!(s, "caf\u{e9}"),
        _ => panic!("expected a string"),
    }
}

#[test]
fn parses_nested_structures() {
    let doc = br#" {"a": [1, 2.5, {"b": null}], "c": "d", "e": [[]]} "#;
    match parse_json(doc) {
        Some(Json::Obj(entries)) => {
            assert_eq!(entries.len(), 3);
            assert_eq!(entries[0].0, "a");
            match &entries[0].1 {
                Json::Arr(items) => assert_eq!(items.len(), 3),
                _ => panic!("expected an array"),
            }
        }
        _ => panic!("expected an object"),
    }
}

#[test]
fn rejects_malformed_documents() {
    assert!(parse_json(b"").is_none());
    assert!(parse_json(b"{").is_none());
    assert!(parse_json(b"\"unterminated").is_none());
    assert!(parse_json(b"01").is_none());
    assert!(parse_json(b"1 2").is_none());
    assert!(parse_json(b"{\"a\":}").is_none());
    assert!(parse_json(b"[1,]").is_none());
    assert!(parse_json(b"nul").is_none());
    // Invalid UTF-8 inside a string is refused, not mangled.
    assert!(parse_json(b"\"\xff\xfe\"").is_none());
}

#[test]
fn serializes_exactly() {
    let v = Json::Obj(vec![
        ("a".to_string(), Json::Arr(vec![Json::Num(b"1".to_vec()), Json::Null])),
        ("b".to_string(), Json::Str("x\ny".to_string())),
        ("c".to_string(), Json::Bool(true)),
    ]);
    assert_eq!(ser(&v), r#"{"a":[1,null],"b":"x\ny","c":true}"#);
}

#[test]
fn serialize_then_parse_preserves_the_document() {
    let v = Json::Obj(vec![
        ("model".to_string(), Json::Str("gpt-4".to_string())),
        ("n".to_string(), Json::Num(b"3".to_vec())),
        (
            "messages".to_string(),
            Json::Arr(vec![Json::Obj(vec![(
                "content".to_string(),
                Json::Str("hi \"there\"".to_string()),
            )])]),
        ),
    ]);
    let bytes = json_to_bytes(&v);
    let reparsed = parse_json(&bytes).expect("serializer output parses");
    assert_eq!(json_to_bytes(&reparsed), bytes);
}

#[test]
fn numbers_read_and_write_integers() {
    let n = Number::from_i64(-987654321);
    assert_eq!(n.as_i64(), Some(-987654321));
    let z = Number::from_i64(0);
    assert_eq!(z.raw, b"0");
    let big = Number::from_i64(i64::MAX);
    assert_eq!(big.as_i64(), Some(i64::MAX));
    let min = Number::from_i64(i64::MIN);
    assert_eq!(min.as_i64(), Some(i64::MIN));
    // A fraction is not an integer.
    let frac = Number { raw: b"1.5".to_vec() };
    assert_eq!(frac.as_i64(), None);
}
