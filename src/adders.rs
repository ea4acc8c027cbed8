//! Binary addition: half and full adders, ripple-carry adders and
//! incrementers. The adders wrap modulo `2^N`: the carry out of the most
//! significant position is dropped and no overflow is reported.
use crate::basic_gates::{and, or, xor};
use crate::bus::{
    add_bus, bit, bus_of, lemma_bus_of_mod, lemma_bus_of_val, lemma_val_bus_of, lemma_val_ones,
    lemma_val_prepend, lemma_val_unit, lemma_val_zeros, lemma_wrapped_sum, ones, val, zeros,
};
use crate::{Arr16, Arr4, Arr8};
use vstd::arithmetic::div_mod::lemma_add_mod_noop_right;
use vstd::arithmetic::power2::{lemma2_to64, lemma_pow2_pos, lemma_pow2_unfold, pow2};
use vstd::prelude::*;

verus! {

/// Half adder: `[carry, sum]` of two bits.
pub fn half_adder(a: bool, b: bool) -> (r: [bool; 2])
    ensures
        r@ == seq![a && b, a != b],
{
    [and(a, b), xor(a, b)]
}

/// Full adder: `[carry, sum]` of three bits, from two half adders. The two
/// intermediate carries are never both high, so OR combines them.
pub fn full_adder(a: bool, b: bool, c: bool) -> (r: [bool; 2])
    ensures
        2 * bit(r@[0]) + bit(r@[1]) == bit(a) + bit(b) + bit(c),
{
    let a_b = half_adder(a, b);
    let absum_c = half_adder(a_b[1], c);
    [or(a_b[0], absum_c[0]), absum_c[1]]
}

/// Ripple-carry addition of two buses of one width: a full adder per
/// position, the carry running from the last index towards index 0.
fn ripple_add<const N: usize>(a: [bool; N], b: [bool; N]) -> (r: [bool; N])
    ensures
        r@ == add_bus(a@, b@),
        val(r@) == (val(a@) + val(b@)) % pow2(N as nat),
{
    let mut r = a;
    let mut carry = false;
    let mut k: usize = N;
    assert(r@.subrange(N as int, N as int) =~= Seq::<bool>::empty());
    assert(a@.subrange(N as int, N as int) =~= Seq::<bool>::empty());
    assert(b@.subrange(N as int, N as int) =~= Seq::<bool>::empty());
    while k > 0
        invariant
            k <= N,
            r@.len() == N,
            val(r@.subrange(k as int, N as int)) + bit(carry) * pow2((N - k) as nat) == val(
                a@.subrange(k as int, N as int),
            ) + val(b@.subrange(k as int, N as int)),
        decreases k,
    {
        let sum = full_adder(a[k - 1], b[k - 1], carry);
        let ghost old_r = r@;
        let ghost old_carry = carry;
        r[k - 1] = sum[1];
        carry = sum[0];
        k = k - 1;
        proof {
            let n = N as int;
            let rest = (N - k - 1) as nat;
            let p = pow2(rest);
            assert(r@.subrange(k as int, n) =~= seq![sum@[1]] + old_r.subrange(k + 1, n));
            assert(a@.subrange(k as int, n) =~= seq![a@[k as int]] + a@.subrange(k + 1, n));
            assert(b@.subrange(k as int, n) =~= seq![b@[k as int]] + b@.subrange(k + 1, n));
            lemma_val_prepend(sum@[1], old_r.subrange(k + 1, n));
            lemma_val_prepend(a@[k as int], a@.subrange(k + 1, n));
            lemma_val_prepend(b@[k as int], b@.subrange(k + 1, n));
            lemma_pow2_unfold((N - k) as nat);
            assert(bit(carry) * (2 * p) + bit(sum@[1]) * p == (bit(a@[k as int]) + bit(
                b@[k as int],
            ) + bit(old_carry)) * p) by (nonlinear_arith)
                requires
                    2 * bit(carry) + bit(sum@[1]) == bit(a@[k as int]) + bit(b@[k as int]) + bit(
                        old_carry,
                    ),
            ;
        }
    }
    assert(r@.subrange(0, N as int) =~= r@);
    assert(a@.subrange(0, N as int) =~= a@);
    assert(b@.subrange(0, N as int) =~= b@);
    proof {
        lemma_wrapped_sum(r@, a@, b@, carry);
    }
    r
}

/// 4-bit ripple-carry adder, wrapping modulo 16.
pub fn adder4(a: Arr4, b: Arr4) -> (r: Arr4)
    ensures
        r@ == add_bus(a@, b@),
        val(r@) == (val(a@) + val(b@)) % 16,
{
    proof {
        lemma2_to64();
    }
    ripple_add(a, b)
}

/// 8-bit ripple-carry adder, wrapping modulo 256.
pub fn adder8(a: Arr8, b: Arr8) -> (r: Arr8)
    ensures
        r@ == add_bus(a@, b@),
        val(r@) == (val(a@) + val(b@)) % 256,
{
    proof {
        lemma2_to64();
    }
    ripple_add(a, b)
}

/// 16-bit ripple-carry adder, wrapping modulo 65536.
pub fn adder16(a: Arr16, b: Arr16) -> (r: Arr16)
    ensures
        r@ == add_bus(a@, b@),
        val(r@) == (val(a@) + val(b@)) % 65536,
{
    proof {
        lemma2_to64();
    }
    ripple_add(a, b)
}

/// The bus one above `s`, wrapped to its width.
pub open spec fn inc_bus(s: Seq<bool>) -> Seq<bool> {
    bus_of(val(s) + 1, s.len())
}

/// The bus reached from `start` by `k` increments.
pub open spec fn increments(start: Seq<bool>, k: nat) -> Seq<bool>
    decreases k,
{
    if k == 0 {
        start
    } else {
        inc_bus(increments(start, (k - 1) as nat))
    }
}

/// 4-bit incrementer: adds one, wrapping modulo 16.
pub fn incrementer4(a: Arr4) -> (r: Arr4)
    ensures
        r@ == inc_bus(a@),
        val(r@) == (val(a@) + 1) % 16,
{
    let mut one: Arr4 = [false; 4];
    one[3] = true;
    proof {
        assert(one@ =~= zeros(3).push(true));
        lemma_val_unit(4);
    }
    adder4(a, one)
}

/// 8-bit incrementer: adds one, wrapping modulo 256.
pub fn incrementer8(a: Arr8) -> (r: Arr8)
    ensures
        r@ == inc_bus(a@),
        val(r@) == (val(a@) + 1) % 256,
{
    let mut one: Arr8 = [false; 8];
    one[7] = true;
    proof {
        assert(one@ =~= zeros(7).push(true));
        lemma_val_unit(8);
    }
    adder8(a, one)
}

/// 16-bit incrementer: adds one, wrapping modulo 65536.
pub fn incrementer16(a: Arr16) -> (r: Arr16)
    ensures
        r@ == inc_bus(a@),
        val(r@) == (val(a@) + 1) % 65536,
{
    let mut one: Arr16 = [false; 16];
    one[15] = true;
    proof {
        assert(one@ =~= zeros(15).push(true));
        lemma_val_unit(16);
    }
    adder16(a, one)
}

/// Counting up from the all-low bus: after `k` increments the bus holds `k`
/// modulo `2^len`.
pub proof fn lemma_increments_count(len: nat, k: nat)
    ensures
        increments(zeros(len), k) == bus_of(k, len),
    decreases k,
{
    if k == 0 {
        lemma_val_zeros(len);
        lemma_bus_of_val(zeros(len));
    } else {
        let x = (k - 1) as nat;
        let m = pow2(len);
        lemma_increments_count(len, x);
        lemma_val_bus_of(x, len);
        lemma_pow2_pos(len);
        lemma_add_mod_noop_right(1, x as int, m as int);
        lemma_bus_of_mod(x % m + 1, len);
        lemma_bus_of_mod(k, len);
    }
}

/// Ripple wraparound: `2^len - 1` increments of the all-low bus give the
/// all-high bus, and one more gives the all-low bus again.
pub proof fn lemma_increments_wrap(len: nat)
    ensures
        increments(zeros(len), (pow2(len) - 1) as nat) == ones(len),
        increments(zeros(len), pow2(len)) == zeros(len),
{
    let m = pow2(len);
    lemma_pow2_pos(len);
    lemma_increments_count(len, (m - 1) as nat);
    lemma_increments_count(len, m);
    lemma_val_ones(len);
    lemma_bus_of_val(ones(len));
    lemma_val_zeros(len);
    lemma_bus_of_val(zeros(len));
    lemma_bus_of_mod(m, len);
    vstd::arithmetic::div_mod::lemma_mod_self_0(m as int);
}

} // verus!
