use yatco::custom_py::{classify_output, required_script};
use yatco::errors::{EscapeError, TransformError};
use yatco::json_unescape::unescape_json_string;
use yatco::pretty_json;
use yatco::util::get_script_path;

#[test]
fn test_parse_error_carries_parser_message() {
    let err = pretty_json::transform("not json", None).unwrap_err();
    match err {
        TransformError::Parse(m) => assert!(!m.is_empty()),
        other => panic!("expected a parse error, got {}", other.message()),
    }
}

#[test]
fn test_truncated_escape() {
    let err = unescape_json_string("abc\\").unwrap_err();
    assert_eq!(err, EscapeError::TruncatedEscape);
    assert_eq!(
        TransformError::Escape(err).message(),
        "Invalid escape sequence"
    );
}

#[test]
fn test_truncated_unicode_escape() {
    let err = unescape_json_string("\\u12").unwrap_err();
    assert_eq!(err, EscapeError::TruncatedUnicode);
    assert_eq!(
        TransformError::Escape(err).message(),
        "Invalid \\u escape (too short)"
    );
}

#[test]
fn test_bad_hex_digit_reported_before_short_input() {
    let err = unescape_json_string("\\uz").unwrap_err();
    assert_eq!(err, EscapeError::BadHexDigit);
    assert_eq!(
        TransformError::Escape(err).message(),
        "Invalid hex digit in \\u escape"
    );
}

#[test]
fn test_surrogate_codepoint_rejected() {
    let err = unescape_json_string("\\ud800").unwrap_err();
    assert_eq!(err, EscapeError::BadCodepoint);
    assert_eq!(
        TransformError::Escape(err).message(),
        "Invalid unicode codepoint"
    );
}

#[test]
fn test_missing_argument() {
    let err = required_script(None).unwrap_err();
    assert_eq!(
        err.message(),
        "Required extra arguments are not given to the transformer"
    );
}

#[test]
fn test_absolute_script_must_exist() {
    let err = get_script_path("/no/such/script.py", true, false, None).unwrap_err();
    assert_eq!(
        err.message(),
        "Script path '/no/such/script.py' does not exist"
    );
}

#[test]
fn test_absolute_script_used_as_is() {
    let path = get_script_path("/tmp/script.py", true, true, None).unwrap();
    assert_eq!(path, "/tmp/script.py");
}

#[test]
fn test_relative_script_joins_data_dir() {
    let path = get_script_path("script.py", false, false, Some("/data/app")).unwrap();
    assert_eq!(path, "/data/app/script.py");
}

#[test]
fn test_no_data_dir() {
    let err = get_script_path("script.py", false, false, None).unwrap_err();
    assert_eq!(err.message(), "Could not determine data directory");
}

#[test]
fn test_stderr_fails_even_with_output() {
    let err = classify_output("good output".to_string(), "  oops  ".to_string()).unwrap_err();
    match err {
        TransformError::Stderr(m) => assert_eq!(m, "  oops  "),
        other => panic!("expected stderr failure, got {}", other.message()),
    }
}

#[test]
fn test_blank_stderr_passes_stdout_verbatim() {
    let out = classify_output("  kept as is \n".to_string(), " \n\t ".to_string()).unwrap();
    assert_eq!(out, "  kept as is \n");
}
