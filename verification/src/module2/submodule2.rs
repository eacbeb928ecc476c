//! Second submodule of `module2`.

use vstd::prelude::*;

verus! {

/// The line that this submodule announces.
pub open spec fn m2s2_line() -> Seq<char> {
    "this is module2/submodule2"@
}

/// Hands back the line that this submodule announces; callers print it.
pub fn print_m2s2() -> (r: String)
    ensures
        r@ == m2s2_line(),
{
    "this is module2/submodule2".to_owned()
}

} // verus!
