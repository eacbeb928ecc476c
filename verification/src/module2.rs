//! A module of the layout demo whose submodules live in a directory named
//! after it: `module2/submodule1.rs` and `module2/submodule2.rs`.

use vstd::prelude::*;

pub mod submodule1;
pub mod submodule2;

verus! {

/// The line that this module announces for itself.
pub open spec fn module2_line() -> Seq<char> {
    "this is module2"@
}

/// The lines that this module announces: its own, then each submodule's.
pub open spec fn module2_lines() -> Seq<Seq<char>> {
    seq![module2_line(), submodule1::m2s1_line(), submodule2::m2s2_line()]
}

/// Hands back the lines that this module announces; callers print them.
pub fn print() -> (r: Vec<String>)
    ensures
        r.deep_view() == module2_lines(),
{
    let mut r: Vec<String> = Vec::new();
    r.push("this is module2".to_owned());
    r.push(submodule1::print_m2s1());
    r.push(submodule2::print_m2s2());
    proof {
        assert(r.deep_view() =~= module2_lines());
    }
    r
}

} // verus!
