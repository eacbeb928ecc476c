//! A module of the layout demo that reaches one public submodule,
//! `module3/submodule1.rs`.

use vstd::prelude::*;

pub mod submodule1;

verus! {

/// The line that this module announces for itself.
pub open spec fn module3_line() -> Seq<char> {
    "this is module1"@
}

/// The lines that this module announces: its own, then its submodule's.
pub open spec fn module3_lines() -> Seq<Seq<char>> {
    seq![module3_line(), submodule1::m3s1_line()]
}

/// Hands back the lines that this module announces; callers print them.
pub fn print() -> (r: Vec<String>)
    ensures
        r.deep_view() == module3_lines(),
{
    let mut r: Vec<String> = Vec::new();
    r.push("this is module1".to_owned());
    r.push(submodule1::print_m3s1());
    proof {
        assert(r.deep_view() =~= module3_lines());
    }
    r
}

} // verus!
