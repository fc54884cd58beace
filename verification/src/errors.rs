//! The ways a transformer step can fail, and the message each failure
//! carries back to the caller.

use vstd::prelude::*;
use vstd::string::*;

verus! {

/// Why an escape sequence could not be decoded.
#[derive(Clone, Copy, PartialEq, Eq, Structural, Debug)]
pub enum EscapeError {
    /// A lone backslash ended the input.
    TruncatedEscape,
    /// A `\u` escape with fewer than four characters after it.
    TruncatedUnicode,
    /// A `\u` escape whose four characters are not all hex digits.
    BadHexDigit,
    /// A `\u` escape naming a value that is no Unicode scalar.
    BadCodepoint,
}

/// A failure of one transformer step.
#[derive(Clone, Debug)]
pub enum TransformError {
    /// The input was not valid JSON; carries the parser's message.
    Parse(String),
    /// An escape sequence could not be decoded.
    Escape(EscapeError),
    /// The argument map lacks the key the transformer requires.
    MissingArgument,
    /// An absolute script path that does not exist; carries the path.
    ScriptNotFound(String),
    /// No per-application data directory could be determined.
    NoDataDir,
    /// The external process could not be started; carries the reason.
    Spawn(String),
    /// The external process wrote to standard error; carries that text.
    Stderr(String),
}

pub open spec fn spec_escape_message(e: EscapeError) -> Seq<char> {
    match e {
        EscapeError::TruncatedEscape => "Invalid escape sequence"@,
        EscapeError::TruncatedUnicode => "Invalid \\u escape (too short)"@,
        EscapeError::BadHexDigit => "Invalid hex digit in \\u escape"@,
        EscapeError::BadCodepoint => "Invalid unicode codepoint"@,
    }
}

/// The message of a failure, as the boundary embeds it in its reply.
pub open spec fn spec_message(e: TransformError) -> Seq<char> {
    match e {
        TransformError::Parse(m) => m@,
        TransformError::Escape(k) => spec_escape_message(k),
        TransformError::MissingArgument => "Required extra arguments are not given to the transformer"@,
        TransformError::ScriptNotFound(p) => "Script path '"@ + p@ + "' does not exist"@,
        TransformError::NoDataDir => "Could not determine data directory"@,
        TransformError::Spawn(m) => m@,
        TransformError::Stderr(m) => m@,
    }
}

impl TransformError {
    /// The human-readable text of this failure.
    pub fn message(&self) -> (r: String)
        ensures
            r@ == spec_message(*self),
    {
        match self {
            TransformError::Parse(m) => m.clone(),
            TransformError::Escape(k) => match k {
                EscapeError::TruncatedEscape => "Invalid escape sequence".to_owned(),
                EscapeError::TruncatedUnicode => "Invalid \\u escape (too short)".to_owned(),
                EscapeError::BadHexDigit => "Invalid hex digit in \\u escape".to_owned(),
                EscapeError::BadCodepoint => "Invalid unicode codepoint".to_owned(),
            },
            TransformError::MissingArgument => {
                "Required extra arguments are not given to the transformer".to_owned()
            },
            TransformError::ScriptNotFound(p) => {
                let mut s = "Script path '".to_owned();
                s.append(p.as_str());
                s.append("' does not exist");
                s
            },
            TransformError::NoDataDir => "Could not determine data directory".to_owned(),
            TransformError::Spawn(m) => m.clone(),
            TransformError::Stderr(m) => m.clone(),
        }
    }
}

} // verus!
