//! The settings file: its name and its contents. Writing it is left to the
//! program around the library.

use vstd::prelude::*;
use vstd::string::*;

verus! {

/// The file that `file_name` is saved to: the name with `ini` appended
/// as it stands (no dot is added).
pub fn ini_file_name(file_name: String) -> (path: String)
    ensures
        path@ == file_name@ + "ini"@,
{
    let mut path = file_name;
    path.append("ini");
    path
}

/// The text written to a new settings file: a `[General]` section header
/// line followed by an empty line.
pub fn ini_contents() -> (text: String)
    ensures
        text@ == "[General]\n\n"@,
{
    let mut text = String::from_str("[General]");
    text.append("\n");
    text.append("\n");
    proof {
        reveal_strlit("[General]");
        reveal_strlit("\n");
        reveal_strlit("[General]\n\n");
        assert(text@ =~= "[General]\n\n"@);
    }
    text
}

} // verus!
