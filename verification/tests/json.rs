use github_mcp_server_rs::json::{put, Json};

fn parse(text: &str) -> Json {
    Json::parse(text).unwrap()
}

fn compact(text: &str) -> String {
    parse(text).to_compact()
}

#[test]
fn texts_are_read_and_written_back() {
    for text in [
        "null",
        "true",
        "false",
        "0",
        "-1",
        "18446744073709551615",
        "-9223372036854775808",
        "1.5",
        "-0.0",
        "1e300",
        "\"\"",
        "\"a\\n\\\"é\"",
        "[]",
        "[1,[2,[]],{}]",
        "{}",
        "{\"a\":{\"b\":[null]},\"c\":1}",
    ] {
        assert_eq!(compact(text), serde_json::from_str::<serde_json::Value>(text).unwrap().to_string());
    }
}

#[test]
fn numbers_keep_their_kind() {
    assert!(matches!(parse("7"), Json::Unsigned(7)));
    assert!(matches!(parse("-7"), Json::Signed(-7)));
    assert!(matches!(parse("18446744073709551615"), Json::Unsigned(u64::MAX)));
    assert!(matches!(parse("7.0"), Json::Decimal(text) if text == "7.0"));
    assert_eq!(compact("7.0"), "7.0");
    assert_eq!(compact("18446744073709551616"), "1.8446744073709552e+19");
    assert_eq!(compact("0.1"), "0.1");
}

#[test]
fn members_are_ordered_and_the_last_counts() {
    assert_eq!(compact(r#"{"b":1,"a":2,"b":3}"#), r#"{"a":2,"b":3}"#);
    let json = Json::Object(vec![
        ("k".to_string(), Json::Unsigned(1)),
        ("k".to_string(), Json::Unsigned(2)),
    ]);
    assert_eq!(json.to_compact(), r#"{"k":2}"#);
    assert_eq!(json.get("k").and_then(|n| n.as_i64()), Some(2));
    let json = Json::Object(vec![
        ("b".to_string(), Json::Unsigned(1)),
        ("a".to_string(), Json::Unsigned(2)),
        ("b".to_string(), Json::Object(vec![
            ("x".to_string(), Json::Null),
            ("x".to_string(), Json::Bool(true)),
        ])),
        ("c".to_string(), Json::Unsigned(3)),
        ("a".to_string(), Json::Unsigned(4)),
    ]);
    assert_eq!(json.to_compact(), r#"{"a":4,"b":{"x":true},"c":3}"#);
}

#[test]
fn texts_that_are_no_json_are_refused() {
    assert_eq!(
        Json::parse("").unwrap_err(),
        "EOF while parsing a value at line 1 column 0"
    );
    assert_eq!(
        Json::parse("{} x").unwrap_err(),
        "trailing characters at line 1 column 4"
    );
    assert!(Json::parse("nul").is_err());
}

#[test]
fn pretty_texts_are_indented() {
    assert_eq!(
        parse(r#"{"b":[1,2],"a":{}}"#).to_pretty(),
        "{\n  \"a\": {},\n  \"b\": [\n    1,\n    2\n  ]\n}"
    );
}

#[test]
fn decimals_that_are_no_numbers_are_null() {
    assert_eq!(Json::Decimal("2.50".to_string()).to_compact(), "2.5");
    assert_eq!(Json::Decimal("x".to_string()).to_compact(), "null");
    assert_eq!(Json::Decimal("inf".to_string()).to_compact(), "null");
    assert_eq!(Json::Decimal("NaN".to_string()).to_compact(), "null");
}

#[test]
fn values_are_asked_for_what_they_are() {
    let json = parse(r#"{"s":"t","b":true,"n":-3,"big":9223372036854775808,"r":1.0,"l":[{"k":"x"},{"k":1},5]}"#);
    assert_eq!(json.get_str("s"), Some("t"));
    assert_eq!(json.get_str("b"), None);
    assert_eq!(json.get_str("none"), None);
    assert_eq!(json.get("b").unwrap().as_bool(), Some(true));
    assert_eq!(json.get("s").unwrap().as_bool(), None);
    assert_eq!(json.get("n").unwrap().as_i64(), Some(-3));
    assert_eq!(json.get("big").unwrap().as_i64(), None);
    assert_eq!(json.get("r").unwrap().as_i64(), None);
    assert_eq!(json.get("l").unwrap().as_array().unwrap().len(), 3);
    assert!(json.get("s").unwrap().get("x").is_none());
    assert!(matches!(json.get_or_null("none"), Json::Null));
    assert_eq!(json.get_or_null("n").as_i64(), Some(-3));
    assert_eq!(json.listed_texts("l", "k").to_compact(), r#"["x"]"#);
    assert_eq!(json.listed_texts("s", "k").to_compact(), "[]");
    assert_eq!(json.duplicate().to_compact(), json.to_compact());
}

#[test]
fn objects_are_put_together() {
    let mut fields = Vec::new();
    put(&mut fields, "a", Json::Null);
    put(&mut fields, "b", Json::Bool(false));
    put(&mut fields, "a", Json::Signed(-1));
    assert_eq!(Json::Object(fields).to_compact(), r#"{"a":-1,"b":false}"#);
}
