//! Submodule of `module3`, reachable from outside the crate.

use vstd::prelude::*;

verus! {

/// The line that this submodule announces.
pub open spec fn m3s1_line() -> Seq<char> {
    "this is module3/submodule1"@
}

/// Hands back the line that this submodule announces; callers print it.
pub fn print_m3s1() -> (r: String)
    ensures
        r@ == m3s1_line(),
{
    "this is module3/submodule1".to_owned()
}

} // verus!
