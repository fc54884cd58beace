//! Resolution of a script identifier to the path the interpreter is given.

use vstd::prelude::*;
use vstd::string::*;
use crate::errors::TransformError;

verus! {

/// `file` placed under `dir`.
pub open spec fn spec_join_path(dir: Seq<char>, file: Seq<char>) -> Seq<char> {
    dir + "/"@ + file
}

/// Decides the script path.  An absolute identifier is used as it stands and
/// must exist; a relative one is placed under the per-application data
/// directory.  The caller supplies what only the platform knows: whether the
/// identifier is absolute, whether it exists as such, and the data directory.
pub fn get_script_path(
    file_name: &str,
    is_absolute: bool,
    absolute_exists: bool,
    data_dir: Option<&str>,
) -> (r: Result<String, TransformError>)
    ensures
        is_absolute && absolute_exists ==> (r matches Ok(p) && p@ == file_name@),
        is_absolute && !absolute_exists ==> (r matches Err(e) && (e matches
            TransformError::ScriptNotFound(p) && p@ == file_name@)),
        !is_absolute && data_dir is Some ==> (r matches Ok(p) && p@ == spec_join_path(
            data_dir->0@,
            file_name@,
        )),
        !is_absolute && data_dir is None ==> (r matches Err(e) && e == TransformError::NoDataDir),
{
    if is_absolute {
        if absolute_exists {
            Ok(file_name.to_owned())
        } else {
            Err(TransformError::ScriptNotFound(file_name.to_owned()))
        }
    } else {
        match data_dir {
            Some(d) => {
                let mut p = d.to_owned();
                p.append("/");
                p.append(file_name);
                Ok(p)
            },
            None => Err(TransformError::NoDataDir),
        }
    }
}

} // verus!
