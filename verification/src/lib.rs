//! Named, reusable chains of text transformers.
//!
//! A *preset* is a named, ordered list of transformer names together with one
//! shared argument map.  Running a preset applies each transformer in order to
//! a running text, stopping at the first failure.  Three transformers are
//! built in: a JSON pretty-printer, a JSON string un-escaper, and one that
//! delegates to an external script.  Presets live in a store that the
//! surrounding application persists to disk.

pub mod args;
pub mod config;
pub mod custom_py;
pub mod errors;
pub mod json;
pub mod json_unescape;
pub mod pipeline;
pub mod pretty_json;
pub mod strutil;
pub mod transformers;
pub mod util;
