//! A tiny greeting web server, verified.
//!
//! The library holds the pure part of the server: framing the head of an
//! incoming request, spotting the one special route, and building the
//! response bytes with a correct `Content-Length`. Sockets, threads and
//! sleeping live outside the library; they hand lines in and take bytes out.
//!
//! Beside the server sits a small demo of module layout: each module
//! contributes the lines it announces, and [`define_multi_modules`] collects
//! them in order.

use vstd::prelude::*;

pub mod http;
pub mod module1;
pub mod module2;
pub mod module3;

verus! {

/// The lines of the module demo, in the order they are announced:
/// each module in turn, then the submodule reached through `module3`.
pub open spec fn demo_lines() -> Seq<Seq<char>> {
    seq![crate::module1::module1_line()] + crate::module2::module2_lines()
        + crate::module3::module3_lines() + seq![crate::module3::submodule1::m3s1_line()]
}

/// Collects the announcement line of every module of the demo, in order.
pub fn define_multi_modules() -> (r: Vec<String>)
    ensures
        r.deep_view() == demo_lines(),
{
    let mut r: Vec<String> = Vec::new();
    r.push(crate::module1::print());
    let mut m2 = crate::module2::print();
    r.append(&mut m2);
    let mut m3 = crate::module3::print();
    r.append(&mut m3);
    r.push(crate::module3::submodule1::print_m3s1());
    proof {
        assert(r.deep_view() =~= demo_lines());
    }
    r
}

} // verus!
