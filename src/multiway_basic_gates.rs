//! Reductions over a bus, and selectors and distributors over several buses.
use crate::basic_gates::{and, demux, not, or};
use crate::bus::{lemma_val2, lemma_val3, val};
use crate::multibit_basic_gates::mux16;
use crate::{Arr16, Arr4, Arr8};
use vstd::prelude::*;

verus! {

/// 8-way OR: high when at least one bit of the bus is high.
pub fn or8way(i: Arr8) -> (r: bool)
    ensures
        r == exists|k: int| 0 <= k < 8 && i@[k],
{
    or(or(or(i[0], i[1]), or(i[2], i[3])), or(or(i[4], i[5]), or(i[6], i[7])))
}

/// 8-way AND: high when every bit of the bus is high.
pub fn and8way(i: Arr8) -> (r: bool)
    ensures
        r == forall|k: int| 0 <= k < 8 ==> i@[k],
{
    and(and(and(i[0], i[1]), and(i[2], i[3])), and(and(i[4], i[5]), and(i[6], i[7])))
}

/// 16-way OR: the 8-way OR of each half of the bus, combined.
pub fn or16way(i: Arr16) -> (r: bool)
    ensures
        r == exists|k: int| 0 <= k < 16 && i@[k],
{
    let high = or8way([i[0], i[1], i[2], i[3], i[4], i[5], i[6], i[7]]);
    let low = or8way([i[8], i[9], i[10], i[11], i[12], i[13], i[14], i[15]]);
    or(high, low)
}

/// 4-way 16-bit multiplexer: the selector, read as a binary number with its
/// most significant bit at index 0, picks `a`, `b`, `c` or `d`.
pub fn mux4way16(a: Arr16, b: Arr16, c: Arr16, d: Arr16, s: [bool; 2]) -> (r: Arr16)
    ensures
        r@ == seq![a@, b@, c@, d@][val(s@) as int],
{
    proof {
        lemma_val2(s@);
    }
    mux16(mux16(a, b, s[1]), mux16(c, d, s[1]), s[0])
}

/// 8-way 16-bit multiplexer: the selector, read as a binary number with its
/// most significant bit at index 0, picks one of `a` to `h`.
pub fn mux8way16(
    a: Arr16,
    b: Arr16,
    c: Arr16,
    d: Arr16,
    e: Arr16,
    f: Arr16,
    g: Arr16,
    h: Arr16,
    s: [bool; 3],
) -> (r: Arr16)
    ensures
        r@ == seq![a@, b@, c@, d@, e@, f@, g@, h@][val(s@) as int],
{
    let low: [bool; 2] = [s[1], s[2]];
    proof {
        lemma_val2(low@);
        lemma_val3(s@);
    }
    mux16(mux4way16(a, b, c, d, low), mux4way16(e, f, g, h, low), s[0])
}

/// 4-way demultiplexer: `i` goes to the output whose distance from the last
/// position is the selector's value; every other output is low.
pub fn demux4way(i: bool, s: [bool; 2]) -> (r: Arr4)
    ensures
        forall|k: int| 0 <= k < 4 ==> r@[k] == (i && k == 3 - val(s@)),
{
    proof {
        lemma_val2(s@);
    }
    let not_s0 = not(s[0]);
    let not_s1 = not(s[1]);
    [
        demux(i, or(not_s0, not_s1))[1],
        demux(i, or(not_s0, s[1]))[1],
        demux(i, or(s[0], not_s1))[1],
        demux(i, or(s[0], s[1]))[1],
    ]
}

/// 8-way demultiplexer: `i` goes to the output whose distance from the last
/// position is the selector's value; every other output is low.
pub fn demux8way(i: bool, s: [bool; 3]) -> (r: Arr8)
    ensures
        forall|k: int| 0 <= k < 8 ==> r@[k] == (i && k == 7 - val(s@)),
{
    proof {
        lemma_val3(s@);
    }
    let not_s0 = not(s[0]);
    let not_s1 = not(s[1]);
    let not_s2 = not(s[2]);
    let or_nots0s1 = or(not_s0, not_s1);
    let or_nots0_s1 = or(not_s0, s[1]);
    let or_s0_nots1 = or(s[0], not_s1);
    let or_s0s1 = or(s[0], s[1]);
    [
        demux(i, or(or_nots0s1, not_s2))[1],
        demux(i, or(or_nots0s1, s[2]))[1],
        demux(i, or(or_nots0_s1, not_s2))[1],
        demux(i, or(or_nots0_s1, s[2]))[1],
        demux(i, or(or_s0_nots1, not_s2))[1],
        demux(i, or(or_s0_nots1, s[2]))[1],
        demux(i, or(or_s0s1, not_s2))[1],
        demux(i, or(or_s0s1, s[2]))[1],
    ]
}

} // verus!
