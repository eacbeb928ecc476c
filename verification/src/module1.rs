//! A module of the layout demo that lives in a single file.

use vstd::prelude::*;

verus! {

/// The line that this module announces.
pub open spec fn module1_line() -> Seq<char> {
    "this is module1"@
}

/// Hands back the line that this module announces; callers print it.
pub fn print() -> (r: String)
    ensures
        r@ == module1_line(),
{
    "this is module1".to_owned()
}

} // verus!
