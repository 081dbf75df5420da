use domo::json::JsonValue;
use domo::jsontext::parse_json;

#[test]
fn parse_scalars() {
    assert_eq!(parse_json("null"), Some(JsonValue::Null));
    assert_eq!(parse_json("true"), Some(JsonValue::Bool(true)));
    assert_eq!(parse_json("false"), Some(JsonValue::Bool(false)));
    assert_eq!(parse_json("42"), Some(JsonValue::UInt(42)));
    assert_eq!(parse_json("-7"), Some(JsonValue::Int(-7)));
    assert_eq!(parse_json("0"), Some(JsonValue::UInt(0)));
    assert_eq!(parse_json("\"hi\""), Some(JsonValue::Str("hi".to_string())));
}

#[test]
fn parse_number_bounds() {
    assert_eq!(parse_json("18446744073709551615"), Some(JsonValue::UInt(u64::MAX)));
    assert_eq!(
        parse_json("18446744073709551616"),
        Some(JsonValue::NumText("18446744073709551616".to_string()))
    );
    assert_eq!(parse_json("-9223372036854775808"), Some(JsonValue::Int(i64::MIN)));
    assert_eq!(
        parse_json("-9223372036854775809"),
        Some(JsonValue::NumText("-9223372036854775809".to_string()))
    );
}

#[test]
fn parse_non_integer_numbers_keep_their_lexeme() {
    assert_eq!(parse_json("1.5"), Some(JsonValue::NumText("1.5".to_string())));
    assert_eq!(parse_json("-0.25"), Some(JsonValue::NumText("-0.25".to_string())));
    assert_eq!(parse_json("1e3"), Some(JsonValue::NumText("1e3".to_string())));
    assert_eq!(
        parse_json("6.022E+23"),
        Some(JsonValue::NumText("6.022E+23".to_string()))
    );
    assert_eq!(parse_json("2e-2"), Some(JsonValue::NumText("2e-2".to_string())));
}

#[test]
fn parse_rejects_malformed_numbers() {
    assert_eq!(parse_json("01"), None);
    assert_eq!(parse_json("1."), None);
    assert_eq!(parse_json(".5"), None);
    assert_eq!(parse_json("1e"), None);
    assert_eq!(parse_json("1e+"), None);
    assert_eq!(parse_json("-"), None);
}

#[test]
fn parse_unicode_escapes() {
    assert_eq!(parse_json("\"\\u0041\""), Some(JsonValue::Str("A".to_string())));
    assert_eq!(
        parse_json("\"caf\\u00e9\""),
        Some(JsonValue::Str("caf\u{e9}".to_string()))
    );
    assert_eq!(
        parse_json("\"\\u20AC\""),
        Some(JsonValue::Str("\u{20ac}".to_string()))
    );
    // A surrogate pair names one character beyond the basic plane.
    assert_eq!(
        parse_json("\"\\uD83D\\uDE00\""),
        Some(JsonValue::Str("\u{1f600}".to_string()))
    );
    // Lone surrogates and malformed escapes fail.
    assert_eq!(parse_json("\"\\uD83D\""), None);
    assert_eq!(parse_json("\"\\uDE00\""), None);
    assert_eq!(parse_json("\"\\uZZZZ\""), None);
    assert_eq!(parse_json("\"\\u00\""), None);
}

#[test]
fn parse_string_escapes() {
    assert_eq!(
        parse_json("\"a\\\"b\\\\c\\nd\\te\\r\\/f\""),
        Some(JsonValue::Str("a\"b\\c\nd\te\r/f".to_string()))
    );
    assert_eq!(parse_json("\"bad \\x escape\""), None);
}

#[test]
fn parse_arrays() {
    assert_eq!(
        parse_json(" [ 1 , 2 , 3 ] "),
        Some(JsonValue::Arr(vec![
            JsonValue::UInt(1),
            JsonValue::UInt(2),
            JsonValue::UInt(3),
        ]))
    );
    assert_eq!(parse_json("[]"), Some(JsonValue::Arr(Vec::new())));
    assert_eq!(parse_json("[1,]"), None);
    assert_eq!(parse_json("[1 2]"), None);
}

#[test]
fn parse_objects() {
    let v = parse_json("{\"a\": 1, \"b\": [true, null]}").unwrap();
    match v {
        JsonValue::Obj(fields) => {
            assert_eq!(fields.len(), 2);
            assert_eq!(fields[0].0, "a");
            assert_eq!(fields[0].1, JsonValue::UInt(1));
            assert_eq!(fields[1].0, "b");
            assert_eq!(
                fields[1].1,
                JsonValue::Arr(vec![JsonValue::Bool(true), JsonValue::Null])
            );
        }
        other => panic!("unexpected: {:?}", other),
    }
    assert_eq!(parse_json("{}"), Some(JsonValue::Obj(Vec::new())));
    assert_eq!(parse_json("{\"a\":}"), None);
    assert_eq!(parse_json("{\"a\" 1}"), None);
}

#[test]
fn parse_nested() {
    let v = parse_json("{\"rows\":[[\"x\",1],[\"y\",-2]]}").unwrap();
    match v {
        JsonValue::Obj(fields) => match &fields[0].1 {
            JsonValue::Arr(rows) => {
                assert_eq!(rows.len(), 2);
                assert_eq!(
                    rows[1],
                    JsonValue::Arr(vec![
                        JsonValue::Str("y".to_string()),
                        JsonValue::Int(-2),
                    ])
                );
            }
            other => panic!("unexpected: {:?}", other),
        },
        other => panic!("unexpected: {:?}", other),
    }
}

#[test]
fn parse_trailing_garbage_fails() {
    assert_eq!(parse_json("1 2"), None);
    assert_eq!(parse_json("{} x"), None);
    assert_eq!(parse_json(""), None);
    assert_eq!(parse_json("   "), None);
}

#[test]
fn parse_matches_reference_parser() {
    // Cross-check a handful of documents against an independent parser.
    let docs = [
        "{\"status\":403,\"message\":\"Forbidden\"}",
        "[1,2,3]",
        "{\"a\":{\"b\":[null,true,\"x\"]}}",
        "\"plain\"",
    ];
    for d in docs {
        let ours = parse_json(d);
        let theirs: Result<serde_json::Value, _> = serde_json::from_str(d);
        assert!(ours.is_some());
        assert!(theirs.is_ok());
    }
    assert!(parse_json("{\"broken\":").is_none());
    assert!(serde_json::from_str::<serde_json::Value>("{\"broken\":").is_err());
}
