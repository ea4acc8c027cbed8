//! Scalar gates, each a composition of NAND and of the gates before it.
use crate::nand::nand;
use vstd::prelude::*;

verus! {

/// The truth table of NOT.
pub open spec fn spec_not(a: bool) -> bool {
    !a
}

/// The truth table of AND.
pub open spec fn spec_and(a: bool, b: bool) -> bool {
    a && b
}

/// The truth table of OR.
pub open spec fn spec_or(a: bool, b: bool) -> bool {
    a || b
}

/// The truth table of XOR.
pub open spec fn spec_xor(a: bool, b: bool) -> bool {
    a != b
}

/// The truth table of the multiplexer.
pub open spec fn spec_mux(a: bool, b: bool, s: bool) -> bool {
    if s {
        b
    } else {
        a
    }
}

/// The outputs of the demultiplexer.
pub open spec fn spec_demux(i: bool, s: bool) -> Seq<bool> {
    seq![i && s, i && !s]
}

/// NOT: `0 -> 1`, `1 -> 0`.
pub fn not(a: bool) -> (r: bool)
    ensures
        r == spec_not(a),
{
    nand(a, a)
}

/// AND: high only when both inputs are high.
pub fn and(a: bool, b: bool) -> (r: bool)
    ensures
        r == spec_and(a, b),
{
    not(nand(a, b))
}

/// OR, by De Morgan: low only when both inputs are low.
pub fn or(a: bool, b: bool) -> (r: bool)
    ensures
        r == spec_or(a, b),
{
    not(and(not(a), not(b)))
}

/// XOR: high when the inputs differ.
pub fn xor(a: bool, b: bool) -> (r: bool)
    ensures
        r == spec_xor(a, b),
{
    not(and(or(not(a), b), or(a, not(b))))
}

/// Multiplexer: `a` when `s` is low, `b` when `s` is high.
pub fn mux(a: bool, b: bool, s: bool) -> (r: bool)
    ensures
        r == spec_mux(a, b, s),
{
    not(xor(or(s, a), or(not(s), b)))
}

/// Demultiplexer: routes `i` to output 1 when `s` is low and to output 0 when
/// `s` is high; the other output is low.
pub fn demux(i: bool, s: bool) -> (r: [bool; 2])
    ensures
        r@ == spec_demux(i, s),
{
    [not(xor(s, or(not(s), i))), not(xor(not(s), or(s, i)))]
}

/// Negating twice gives the input back.
pub proof fn lemma_not_involutive(x: bool)
    ensures
        spec_not(spec_not(x)) == x,
{
}

/// AND, OR and XOR do not depend on the order of their inputs.
pub proof fn lemma_gates_commutative(a: bool, b: bool)
    ensures
        spec_and(a, b) == spec_and(b, a),
        spec_or(a, b) == spec_or(b, a),
        spec_xor(a, b) == spec_xor(b, a),
{
}

/// AND, OR and XOR do not depend on how three inputs are grouped.
pub proof fn lemma_gates_associative(a: bool, b: bool, c: bool)
    ensures
        spec_and(spec_and(a, b), c) == spec_and(a, spec_and(b, c)),
        spec_or(spec_or(a, b), c) == spec_or(a, spec_or(b, c)),
        spec_xor(spec_xor(a, b), c) == spec_xor(a, spec_xor(b, c)),
{
}

/// The multiplexer passes `a` on a low selector and `b` on a high one.
pub proof fn lemma_mux_selects(a: bool, b: bool)
    ensures
        spec_mux(a, b, false) == a,
        spec_mux(a, b, true) == b,
{
}

/// A low input leaves both demultiplexer outputs low, whatever the selector;
/// a high one goes to output 1 on a low selector and to output 0 on a high one.
pub proof fn lemma_demux_routes(s: bool)
    ensures
        spec_demux(false, s) == seq![false, false],
        spec_demux(true, false) == seq![false, true],
        spec_demux(true, true) == seq![true, false],
{
    assert(spec_demux(false, s) =~= seq![false, false]);
    assert(spec_demux(true, false) =~= seq![false, true]);
    assert(spec_demux(true, true) =~= seq![true, false]);
}

} // verus!
