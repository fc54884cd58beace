//! The JSON parser and pretty-printer this library delegates to, named and
//! wrapped.  Everything here stands for `serde_json`; the rest of the crate
//! speaks of its results only through the names below.

use serde::Serialize;
use vstd::prelude::*;

verus! {

/// Whether `s` parses as one JSON value.
pub uninterp spec fn json_parses(s: Seq<char>) -> bool;

/// Whether `s` parses as a JSON value that is a string.
pub uninterp spec fn json_is_string(s: Seq<char>) -> bool;

/// The decoded contents of `s` when `s` parses as a JSON string.
pub uninterp spec fn json_string_content(s: Seq<char>) -> Seq<char>;

/// The pretty rendering of the JSON value `s` parses as, with a four-space
/// indent unit.
pub uninterp spec fn json_pretty(s: Seq<char>) -> Seq<char>;

/// The parser's message when `s` does not parse.
pub uninterp spec fn json_parse_err(s: Seq<char>) -> Seq<char>;

/// What `s` parses as, as far as the un-escaper cares: a JSON string with
/// its decoded contents, some other JSON value, or no JSON at all.
pub enum ParsedJson {
    /// A JSON string; carries its decoded contents.
    Str(String),
    /// A JSON value of any other kind.
    Other,
    /// Not valid JSON.
    Invalid,
}

/// Relies on `serde_json::from_str::<Value>`: whether it accepts `s`, which
/// kind of value it yields, and, for a string, the decoded contents.
#[verifier::external_body]
pub fn classify_json(s: &str) -> (r: ParsedJson)
    ensures
        r matches ParsedJson::Str(c) ==> json_parses(s@) && json_is_string(s@) && c@
            == json_string_content(s@),
        r is Other ==> json_parses(s@) && !json_is_string(s@),
        r is Invalid ==> !json_parses(s@),
{
    match serde_json::from_str::<serde_json::Value>(s) {
        Ok(serde_json::Value::String(inner)) => ParsedJson::Str(inner),
        Ok(_) => ParsedJson::Other,
        Err(_) => ParsedJson::Invalid,
    }
}

/// Relies on `serde_json::from_str::<Value>` and on rendering the value back
/// through `Serializer::with_formatter` with `PrettyFormatter::with_indent`
/// over four spaces; rendering a `Value` into a byte vector cannot fail, and
/// yields UTF-8.  `Err` carries the parser's message.
#[verifier::external_body]
pub fn pretty_print(s: &str) -> (r: Result<String, String>)
    ensures
        r matches Ok(p) ==> json_parses(s@) && p@ == json_pretty(s@),
        r matches Err(m) ==> !json_parses(s@) && m@ == json_parse_err(s@),
{
    let value: serde_json::Value = serde_json::from_str(s).map_err(|e| e.to_string())?;
    let mut buf: Vec<u8> = Vec::new();
    let formatter = serde_json::ser::PrettyFormatter::with_indent(b"    ");
    let mut ser = serde_json::Serializer::with_formatter(&mut buf, formatter);
    value.serialize(&mut ser).map_err(|e| e.to_string())?;
    String::from_utf8(buf).map_err(|e| e.to_string())
}

} // verus!
