//! The decisions of the external-script transformer: which script the
//! argument map names, and how the process's output is judged.  Running the
//! process itself is the surrounding application's work.

use vstd::prelude::*;
use crate::args::{spec_lookup, ArgMap};
use crate::errors::TransformError;
use crate::strutil::{is_blank, spec_blank};

verus! {

/// The script the argument map must name under the key `py_script`.
pub fn required_script(extra_args: Option<&ArgMap>) -> (r: Result<String, TransformError>)
    ensures
        match extra_args {
            Some(m) => match spec_lookup(m@, "py_script"@) {
                Some(v) => r matches Ok(s) && s@ == v,
                None => r matches Err(e) && e == TransformError::MissingArgument,
            },
            None => r matches Err(e) && e == TransformError::MissingArgument,
        },
{
    match extra_args {
        Some(m) => match m.get("py_script") {
            Some(v) => Ok(v.clone()),
            None => Err(TransformError::MissingArgument),
        },
        None => Err(TransformError::MissingArgument),
    }
}

/// Judges what the process produced: anything but whitespace on standard
/// error fails the step with that text, whatever standard output held and
/// however the process exited; otherwise standard output is the result,
/// returned verbatim.
pub fn classify_output(stdout: String, stderr: String) -> (r: Result<String, TransformError>)
    ensures
        spec_blank(stderr@) ==> r == Ok::<String, TransformError>(stdout),
        !spec_blank(stderr@) ==> r == Err::<String, TransformError>(
            TransformError::Stderr(stderr),
        ),
{
    if is_blank(stderr.as_str()) {
        Ok(stdout)
    } else {
        Err(TransformError::Stderr(stderr))
    }
}

} // verus!
