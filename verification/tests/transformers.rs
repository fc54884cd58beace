use yatco::json_unescape;
use yatco::pretty_json;
use yatco::transformers::{get_transformer, TransformerKind};

#[test]
fn test_unescape_basic() {
    let input = "{\\\"test123\\\":\\\"/test/path\\\"}"; // {\"test123\":\"/test/path\"}
    let out = json_unescape::transform(input, None).unwrap();
    assert_eq!(out, "{\"test123\":\"/test/path\"}");
}

#[test]
fn test_unescape_quotes_wrapped() {
    let input = "\"{\\\"a\\\":1}\""; // quoted string
    let out = json_unescape::transform(input, None).unwrap();
    assert_eq!(out, "{\"a\":1}");
}

#[test]
fn test_unescape_unicode() {
    let input = "Hello \\u0041";
    let out = json_unescape::transform(input, None).unwrap();
    assert_eq!(out, "Hello A");
}

#[test]
fn test_transform_pretty_json() {
    let input = "{\"a\":1,\"b\":[2,3]}";
    let expected = "{\n    \"a\": 1,\n    \"b\": [\n        2,\n        3\n    ]\n}";
    assert_eq!(pretty_json::transform(input, None).unwrap(), expected);
}

#[test]
fn test_transform_empty_object() {
    let input = "{}";
    let expected = "{}";
    assert_eq!(pretty_json::transform(input, None).unwrap(), expected);
}

#[test]
fn test_transform_empty_array() {
    let input = "[]";
    let expected = "[]";
    assert_eq!(pretty_json::transform(input, None).unwrap(), expected);
}

#[test]
fn test_pretty_json_idempotent_over_minify() {
    let t = "{\"a\": 1, \"b\": [2, 3], \"c\": {\"d\": null}}";
    let value: serde_json::Value = serde_json::from_str(t).unwrap();
    let minified = serde_json::to_string(&value).unwrap();
    let once = pretty_json::transform(&minified, None).unwrap();
    let twice = pretty_json::transform(&once, None).unwrap();
    let direct = pretty_json::transform(t, None).unwrap();
    assert_eq!(twice, direct);
    assert_eq!(once, direct);
}

#[test]
fn test_unescape_other_json_value_returned_trimmed() {
    let out = json_unescape::transform("  {\"a\": 1}  ", None).unwrap();
    assert_eq!(out, "{\"a\": 1}");
    let out = json_unescape::transform("  5  ", None).unwrap();
    assert_eq!(out, "5");
}

#[test]
fn test_unescape_lenient_unknown_escape() {
    let out = json_unescape::transform("a\\qb", None).unwrap();
    assert_eq!(out, "aqb");
}

#[test]
fn test_unescape_control_escapes() {
    let out = json_unescape::transform("x\\n\\t\\r\\b\\f\\/y", None).unwrap();
    assert_eq!(out, "x\n\t\r\u{0008}\u{000C}/y");
}

#[test]
fn test_unescape_fallback_on_trailing_backslash() {
    let out = json_unescape::transform("a\\\\b\\", None).unwrap();
    assert_eq!(out, "a\\b\\");
}

#[test]
fn test_registry_names() {
    assert_eq!(get_transformer("pretty_json"), Some(TransformerKind::PrettyJson));
    assert_eq!(get_transformer("json_unescape"), Some(TransformerKind::JsonUnescape));
    assert_eq!(get_transformer("custom_py"), Some(TransformerKind::CustomPy));
    assert_eq!(get_transformer("frobnicate"), None);
    assert_eq!(get_transformer(""), None);
}
