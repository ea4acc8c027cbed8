//! The primitive gate: every other gate of the library is a composition of it.
use vstd::prelude::*;

verus! {

/// NAND: false only when both inputs are true.
pub fn nand(a: bool, b: bool) -> (r: bool)
    ensures
        r == !(a && b),
{
    !(a && b)
}

} // verus!
