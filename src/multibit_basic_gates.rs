//! Bus gates: each applies a scalar gate to every bit position on its own,
//! for buses of 4, 8 and 16 bits.
use crate::basic_gates::{and, mux, not, or, xor};
use crate::bus::{and_bus, not_bus, or_bus, xor_bus};
use crate::{Arr16, Arr4, Arr8};
use vstd::prelude::*;

verus! {

/// Bitwise NOT of a bus of any width.
fn not_bits<const N: usize>(a: [bool; N]) -> (r: [bool; N])
    ensures
        r@ == not_bus(a@),
{
    let mut r = a;
    let mut k: usize = 0;
    while k < N
        invariant
            k <= N,
            r@.len() == N,
            forall|j: int| 0 <= j < k ==> r@[j] == !a@[j],
        decreases N - k,
    {
        r[k] = not(a[k]);
        k = k + 1;
    }
    assert(r@ =~= not_bus(a@));
    r
}

/// Bitwise AND of two buses of one width.
fn and_bits<const N: usize>(a: [bool; N], b: [bool; N]) -> (r: [bool; N])
    ensures
        r@ == and_bus(a@, b@),
{
    let mut r = a;
    let mut k: usize = 0;
    while k < N
        invariant
            k <= N,
            r@.len() == N,
            forall|j: int| 0 <= j < k ==> r@[j] == (a@[j] && b@[j]),
        decreases N - k,
    {
        r[k] = and(a[k], b[k]);
        k = k + 1;
    }
    assert(r@ =~= and_bus(a@, b@));
    r
}

/// Bitwise OR of two buses of one width.
fn or_bits<const N: usize>(a: [bool; N], b: [bool; N]) -> (r: [bool; N])
    ensures
        r@ == or_bus(a@, b@),
{
    let mut r = a;
    let mut k: usize = 0;
    while k < N
        invariant
            k <= N,
            r@.len() == N,
            forall|j: int| 0 <= j < k ==> r@[j] == (a@[j] || b@[j]),
        decreases N - k,
    {
        r[k] = or(a[k], b[k]);
        k = k + 1;
    }
    assert(r@ =~= or_bus(a@, b@));
    r
}

/// Bitwise XOR of two buses of one width.
fn xor_bits<const N: usize>(a: [bool; N], b: [bool; N]) -> (r: [bool; N])
    ensures
        r@ == xor_bus(a@, b@),
{
    let mut r = a;
    let mut k: usize = 0;
    while k < N
        invariant
            k <= N,
            r@.len() == N,
            forall|j: int| 0 <= j < k ==> r@[j] == (a@[j] != b@[j]),
        decreases N - k,
    {
        r[k] = xor(a[k], b[k]);
        k = k + 1;
    }
    assert(r@ =~= xor_bus(a@, b@));
    r
}

/// Multiplexer over two buses of one width: the whole of `a` when `s` is low,
/// of `b` when `s` is high.
fn mux_bits<const N: usize>(a: [bool; N], b: [bool; N], s: bool) -> (r: [bool; N])
    ensures
        r@ == if s {
            b@
        } else {
            a@
        },
{
    let mut r = a;
    let mut k: usize = 0;
    while k < N
        invariant
            k <= N,
            r@.len() == N,
            forall|j: int|
                0 <= j < k ==> r@[j] == if s {
                    b@[j]
                } else {
                    a@[j]
                },
        decreases N - k,
    {
        r[k] = mux(a[k], b[k], s);
        k = k + 1;
    }
    assert(r@ =~= if s {
        b@
    } else {
        a@
    });
    r
}

/// Bitwise NOT of a 4-bit bus.
pub fn not4(a: Arr4) -> (r: Arr4)
    ensures
        r@ == not_bus(a@),
{
    not_bits(a)
}

/// Bitwise AND of two 4-bit buses.
pub fn and4(a: Arr4, b: Arr4) -> (r: Arr4)
    ensures
        r@ == and_bus(a@, b@),
{
    and_bits(a, b)
}

/// Bitwise OR of two 4-bit buses.
pub fn or4(a: Arr4, b: Arr4) -> (r: Arr4)
    ensures
        r@ == or_bus(a@, b@),
{
    or_bits(a, b)
}

/// Bitwise XOR of two 4-bit buses.
pub fn xor4(a: Arr4, b: Arr4) -> (r: Arr4)
    ensures
        r@ == xor_bus(a@, b@),
{
    xor_bits(a, b)
}

/// 4-bit multiplexer: the whole of `a` when `s` is low, of `b` when `s` is high.
pub fn mux4(a: Arr4, b: Arr4, s: bool) -> (r: Arr4)
    ensures
        r@ == if s {
            b@
        } else {
            a@
        },
{
    mux_bits(a, b, s)
}

/// Bitwise NOT of a 8-bit bus.
pub fn not8(a: Arr8) -> (r: Arr8)
    ensures
        r@ == not_bus(a@),
{
    not_bits(a)
}

/// Bitwise AND of two 8-bit buses.
pub fn and8(a: Arr8, b: Arr8) -> (r: Arr8)
    ensures
        r@ == and_bus(a@, b@),
{
    and_bits(a, b)
}

/// Bitwise OR of two 8-bit buses.
pub fn or8(a: Arr8, b: Arr8) -> (r: Arr8)
    ensures
        r@ == or_bus(a@, b@),
{
    or_bits(a, b)
}

/// Bitwise XOR of two 8-bit buses.
pub fn xor8(a: Arr8, b: Arr8) -> (r: Arr8)
    ensures
        r@ == xor_bus(a@, b@),
{
    xor_bits(a, b)
}

/// 8-bit multiplexer: the whole of `a` when `s` is low, of `b` when `s` is high.
pub fn mux8(a: Arr8, b: Arr8, s: bool) -> (r: Arr8)
    ensures
        r@ == if s {
            b@
        } else {
            a@
        },
{
    mux_bits(a, b, s)
}

/// Bitwise NOT of a 16-bit bus.
pub fn not16(a: Arr16) -> (r: Arr16)
    ensures
        r@ == not_bus(a@),
{
    not_bits(a)
}

/// Bitwise AND of two 16-bit buses.
pub fn and16(a: Arr16, b: Arr16) -> (r: Arr16)
    ensures
        r@ == and_bus(a@, b@),
{
    and_bits(a, b)
}

/// Bitwise OR of two 16-bit buses.
pub fn or16(a: Arr16, b: Arr16) -> (r: Arr16)
    ensures
        r@ == or_bus(a@, b@),
{
    or_bits(a, b)
}

/// Bitwise XOR of two 16-bit buses.
pub fn xor16(a: Arr16, b: Arr16) -> (r: Arr16)
    ensures
        r@ == xor_bus(a@, b@),
{
    xor_bits(a, b)
}

/// 16-bit multiplexer: the whole of `a` when `s` is low, of `b` when `s` is high.
pub fn mux16(a: Arr16, b: Arr16, s: bool) -> (r: Arr16)
    ensures
        r@ == if s {
            b@
        } else {
            a@
        },
{
    mux_bits(a, b, s)
}

} // verus!
