//! First submodule of `module2`.

use vstd::prelude::*;

verus! {

/// The line that this submodule announces.
pub open spec fn m2s1_line() -> Seq<char> {
    "this is module2/submodule1"@
}

/// Hands back the line that this submodule announces; callers print it.
pub fn print_m2s1() -> (r: String)
    ensures
        r@ == m2s1_line(),
{
    "this is module2/submodule1".to_owned()
}

} // verus!
