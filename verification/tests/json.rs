use nix_progress::json::{parse, ErrorCategory, Json};

fn text(s: &str) -> String {
    s.to_string()
}

#[test]
fn parse_scalars() {
    assert_eq!(parse("null"), Ok(Json::Null));
    assert_eq!(parse("true"), Ok(Json::Bool(true)));
    assert_eq!(parse("false"), Ok(Json::Bool(false)));
    assert_eq!(parse(" 17 "), Ok(Json::Int(17)));
    assert_eq!(parse("-5"), Ok(Json::Int(-5)));
    assert_eq!(parse("\"a\\nb\""), Ok(Json::Str(text("a\nb"))));
}

#[test]
fn parse_numbers_beyond_i64() {
    assert_eq!(parse("9223372036854775807"), Ok(Json::Int(i64::MAX)));
    assert_eq!(parse("9223372036854775808"), Ok(Json::Number(text("9223372036854775808"))));
    assert_eq!(parse("18446744073709551615"), Ok(Json::Number(text("18446744073709551615"))));
    assert_eq!(parse("1.5"), Ok(Json::Number(text("1.5"))));
    assert_eq!(parse("1.0"), Ok(Json::Number(text("1.0"))));
    assert_eq!(parse("-0.25"), Ok(Json::Number(text("-0.25"))));
}

#[test]
fn parse_array_keeps_order() {
    assert_eq!(
        parse(r#"[1, "two", [3], null]"#),
        Ok(Json::Array(vec![
            Json::Int(1),
            Json::Str(text("two")),
            Json::Array(vec![Json::Int(3)]),
            Json::Null,
        ]))
    );
}

#[test]
fn parse_object_orders_members_by_key() {
    assert_eq!(
        parse(r#"{"b": 1, "a": {"z": true, "y": []}}"#),
        Ok(Json::Object(vec![
            (
                text("a"),
                Json::Object(vec![(text("y"), Json::Array(vec![])), (text("z"), Json::Bool(true))]),
            ),
            (text("b"), Json::Int(1)),
        ]))
    );
}

#[test]
fn parse_object_keeps_the_last_of_equal_keys() {
    assert_eq!(parse(r#"{"a": 1, "a": 2}"#), Ok(Json::Object(vec![(text("a"), Json::Int(2))])));
}

#[test]
fn parse_reports_where_it_fails() {
    let error = parse("[1, 2").unwrap_err();
    assert_eq!(error.category, ErrorCategory::Eof);
    assert_eq!((error.line, error.column), (1, 5));
    let error = parse("[1,\n 2 3]").unwrap_err();
    assert_eq!(error.category, ErrorCategory::Syntax);
    assert_eq!((error.line, error.column), (2, 4));
    assert_eq!(error.message, "expected `,` or `]` at line 2 column 4");
    let error = parse("").unwrap_err();
    assert_eq!(error.category, ErrorCategory::Eof);
}

#[test]
fn accessors_tell_the_variants_apart() {
    let value = parse(r#"{"n": 3, "s": "x", "a": [1], "f": 2.5}"#).unwrap();
    assert_eq!(value.get("n"), Some(&Json::Int(3)));
    assert_eq!(value.get("n").and_then(|v| v.as_i64()), Some(3));
    assert_eq!(value.get("n").and_then(|v| v.as_str()), None);
    assert_eq!(value.get("s").and_then(|v| v.as_str()), Some("x"));
    assert_eq!(value.get("s").and_then(|v| v.as_i64()), None);
    assert_eq!(value.get("a").and_then(|v| v.as_array()), Some(&vec![Json::Int(1)]));
    assert_eq!(value.get("f").and_then(|v| v.as_i64()), None);
    assert_eq!(value.get("missing"), None);
    assert_eq!(value.get(""), None);
    assert_eq!(Json::Int(3).get("n"), None);
    assert_eq!(Json::Array(vec![]).as_array(), Some(&vec![]));
    assert_eq!(Json::Null.as_array(), None);
}
