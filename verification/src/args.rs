//! Process-argument handling: the editor takes exactly one argument, the
//! path of the file to edit. Any other argument count is a usage error
//! that the caller reports before any file is touched.

use vstd::prelude::*;

verus! {

/// The file to edit: the sole argument after the program name.
pub fn parse_args(args: &Vec<String>) -> (filename: &String)
    requires
        args@.len() == 2,
    ensures
        filename@ == args@[1]@,
{
    &args[1]
}

} // verus!
