//! Pretty-printing of JSON text with a four-space indent unit.

use vstd::prelude::*;
use crate::args::ArgMap;
use crate::errors::TransformError;
use crate::json::{json_parse_err, json_parses, json_pretty, pretty_print};

verus! {

/// Parses the input as JSON and renders it back prettily; input that is not
/// valid JSON fails with the parser's message.
pub fn transform(input: &str, _extra_args: Option<&ArgMap>) -> (r: Result<String, TransformError>)
    ensures
        json_parses(input@) ==> (r matches Ok(s) && s@ == json_pretty(input@)),
        !json_parses(input@) ==> (r matches Err(e) && (e matches TransformError::Parse(m) && m@
            == json_parse_err(input@))),
{
    match pretty_print(input) {
        Ok(s) => Ok(s),
        Err(m) => Err(TransformError::Parse(m)),
    }
}

} // verus!
