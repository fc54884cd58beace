//! The transformer registry: a closed mapping from transformer names to the
//! built-in operations.

use vstd::prelude::*;
use crate::strutil::str_eq;

verus! {

/// The built-in transformers, by tag.  `PrettyJson` and `JsonUnescape` are
/// pure text operations; `CustomPy` delegates to an external script.
#[derive(Clone, Copy, PartialEq, Eq, Structural, Debug)]
pub enum TransformerKind {
    PrettyJson,
    JsonUnescape,
    CustomPy,
}

/// The registry as a mathematical function from a name to a transformer.
pub open spec fn spec_get_transformer(name: Seq<char>) -> Option<TransformerKind> {
    if name == "pretty_json"@ {
        Some(TransformerKind::PrettyJson)
    } else if name == "custom_py"@ {
        Some(TransformerKind::CustomPy)
    } else if name == "json_unescape"@ {
        Some(TransformerKind::JsonUnescape)
    } else {
        None
    }
}

/// Looks a transformer up by name.  A name that is not registered yields
/// `None`; it is the caller's task to turn that into a user-visible error.
pub fn get_transformer(name: &str) -> (r: Option<TransformerKind>)
    ensures
        r == spec_get_transformer(name@),
{
    if str_eq(name, "pretty_json") {
        Some(TransformerKind::PrettyJson)
    } else if str_eq(name, "custom_py") {
        Some(TransformerKind::CustomPy)
    } else if str_eq(name, "json_unescape") {
        Some(TransformerKind::JsonUnescape)
    } else {
        None
    }
}

} // verus!
