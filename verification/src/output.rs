//! Where the response is written.

use vstd::prelude::*;
use vstd::string::*;

verus! {

/// Name of the file that is written into an output target that is a
/// directory.
pub const DEFAULT_FILE_NAME: &'static str = "long_duration_jwt.json";

/// The file to write. An output target that names an existing directory
/// stands for the default file in it; any other target is the file itself,
/// letter for letter.
pub open spec fn output_path(target: Seq<char>, is_directory: bool) -> Seq<char> {
    if is_directory {
        target + "/"@ + DEFAULT_FILE_NAME@
    } else {
        target
    }
}

/// The path of the file to write, given whether the output target names an
/// existing directory.
pub fn resolve_output_path(target: &str, is_directory: bool) -> (path: String)
    ensures
        path@ == output_path(target@, is_directory),
{
    if is_directory {
        target.to_owned().concat("/").concat(DEFAULT_FILE_NAME)
    } else {
        target.to_owned()
    }
}

} // verus!
