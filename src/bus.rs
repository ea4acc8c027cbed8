//! The mathematical model of buses: a bus is viewed as a `Seq<bool>` whose
//! index 0 holds the most significant bit.
use vstd::arithmetic::div_mod::lemma_breakdown;
use vstd::arithmetic::power2::{lemma_pow2_pos, lemma_pow2_unfold, pow2};
use vstd::prelude::*;

verus! {

/// The numeric weight of one bit.
pub open spec fn bit(b: bool) -> nat {
    if b {
        1
    } else {
        0
    }
}

/// The unsigned value of a bus, read most significant bit first.
pub open spec fn val(s: Seq<bool>) -> nat
    decreases s.len(),
{
    if s.len() == 0 {
        0
    } else {
        2 * val(s.drop_last()) + bit(s.last())
    }
}

/// The `len`-bit bus that holds `n` modulo `2^len`.
pub open spec fn bus_of(n: nat, len: nat) -> Seq<bool>
    decreases len,
{
    if len == 0 {
        Seq::empty()
    } else {
        bus_of(n / 2, (len - 1) as nat).push(n % 2 == 1)
    }
}

/// The bus of `len` low bits.
pub open spec fn zeros(len: nat) -> Seq<bool> {
    Seq::new(len, |i: int| false)
}

/// The bus of `len` high bits.
pub open spec fn ones(len: nat) -> Seq<bool> {
    Seq::new(len, |i: int| true)
}

/// Bitwise complement.
pub open spec fn not_bus(a: Seq<bool>) -> Seq<bool> {
    Seq::new(a.len(), |i: int| !a[i])
}

/// Bitwise conjunction of two buses of one width.
pub open spec fn and_bus(a: Seq<bool>, b: Seq<bool>) -> Seq<bool> {
    Seq::new(a.len(), |i: int| a[i] && b[i])
}

/// Bitwise disjunction of two buses of one width.
pub open spec fn or_bus(a: Seq<bool>, b: Seq<bool>) -> Seq<bool> {
    Seq::new(a.len(), |i: int| a[i] || b[i])
}

/// Bitwise exclusive or of two buses of one width.
pub open spec fn xor_bus(a: Seq<bool>, b: Seq<bool>) -> Seq<bool> {
    Seq::new(a.len(), |i: int| a[i] != b[i])
}

/// The sum of two buses of one width, wrapped to that width.
pub open spec fn add_bus(a: Seq<bool>, b: Seq<bool>) -> Seq<bool> {
    bus_of(val(a) + val(b), a.len())
}

/// A bus of `len` bits holds a value below `2^len`.
pub proof fn lemma_val_bound(s: Seq<bool>)
    ensures
        val(s) < pow2(s.len()),
    decreases s.len(),
{
    if s.len() == 0 {
        assert(pow2(0) == 1) by {
            lemma_pow2_pos(0);
            vstd::arithmetic::power2::lemma2_to64();
        }
    } else {
        lemma_val_bound(s.drop_last());
        lemma_pow2_unfold(s.len());
    }
}

/// Reading back the bus of `n` gives `n` modulo `2^len`.
pub proof fn lemma_val_bus_of(n: nat, len: nat)
    ensures
        bus_of(n, len).len() == len,
        val(bus_of(n, len)) == n % pow2(len),
    decreases len,
{
    if len == 0 {
        vstd::arithmetic::power2::lemma2_to64();
    } else {
        let m = (len - 1) as nat;
        lemma_val_bus_of(n / 2, m);
        let s = bus_of(n, len);
        assert(s.drop_last() =~= bus_of(n / 2, m));
        lemma_pow2_unfold(len);
        lemma_pow2_pos(m);
        lemma_breakdown(n as int, 2, pow2(m) as int);
    }
}

/// A bus is the bus of its own value.
pub proof fn lemma_bus_of_val(s: Seq<bool>)
    ensures
        bus_of(val(s), s.len()) == s,
    decreases s.len(),
{
    if s.len() > 0 {
        let v = val(s);
        lemma_bus_of_val(s.drop_last());
        assert(v / 2 == val(s.drop_last()));
        assert(bus_of(v, s.len()) =~= s);
    }
}

/// Only the value modulo `2^len` matters to a `len`-bit bus.
pub proof fn lemma_bus_of_mod(n: nat, len: nat)
    ensures
        bus_of(n % pow2(len), len) == bus_of(n, len),
{
    lemma_val_bus_of(n, len);
    lemma_bus_of_val(bus_of(n, len));
}

/// The all-low bus has value zero.
pub proof fn lemma_val_zeros(len: nat)
    ensures
        val(zeros(len)) == 0,
    decreases len,
{
    if len > 0 {
        assert(zeros(len).drop_last() =~= zeros((len - 1) as nat));
        lemma_val_zeros((len - 1) as nat);
    }
}

/// The complement of a bus holds `2^len - 1` minus its value.
pub proof fn lemma_val_not(s: Seq<bool>)
    ensures
        val(not_bus(s)) + val(s) + 1 == pow2(s.len()),
    decreases s.len(),
{
    if s.len() == 0 {
        vstd::arithmetic::power2::lemma2_to64();
    } else {
        assert(not_bus(s).drop_last() =~= not_bus(s.drop_last()));
        lemma_val_not(s.drop_last());
        lemma_pow2_unfold(s.len());
    }
}

/// The all-high bus has value `2^len - 1`.
pub proof fn lemma_val_ones(len: nat)
    ensures
        val(ones(len)) + 1 == pow2(len),
{
    lemma_val_zeros(len);
    lemma_val_not(zeros(len));
    assert(not_bus(zeros(len)) =~= ones(len));
}

/// A two-bit selector: index 0 is the more significant bit.
pub proof fn lemma_val2(s: Seq<bool>)
    requires
        s.len() == 2,
    ensures
        val(s) == 2 * bit(s[0]) + bit(s[1]),
{
    reveal_with_fuel(val, 3);
    assert(s.drop_last().drop_last() =~= Seq::<bool>::empty());
}

/// A three-bit selector: index 0 is the most significant bit.
pub proof fn lemma_val3(s: Seq<bool>)
    requires
        s.len() == 3,
    ensures
        val(s) == 4 * bit(s[0]) + 2 * bit(s[1]) + bit(s[2]),
{
    lemma_val2(s.drop_last());
}

/// Putting a bit in front of a bus adds its weight at the new top position.
pub proof fn lemma_val_prepend(x: bool, t: Seq<bool>)
    ensures
        val(seq![x] + t) == bit(x) * pow2(t.len()) + val(t),
    decreases t.len(),
{
    let s = seq![x] + t;
    if t.len() == 0 {
        assert(s.drop_last() =~= Seq::<bool>::empty());
        assert(s.last() == x);
        vstd::arithmetic::power2::lemma2_to64();
        assert(val(s.drop_last()) == 0);
    } else {
        assert(s.drop_last() =~= seq![x] + t.drop_last());
        assert(s.last() == t.last());
        lemma_val_prepend(x, t.drop_last());
        lemma_pow2_unfold(t.len());
        let p = pow2((t.len() - 1) as nat);
        assert(2 * (bit(x) * p) == bit(x) * (2 * p)) by (nonlinear_arith);
    }
}

/// A ripple-carry result: the bits that fit plus the carry out of the top
/// position make up the whole sum, so the bits are the sum wrapped to the width.
pub proof fn lemma_wrapped_sum(r: Seq<bool>, a: Seq<bool>, b: Seq<bool>, carry: bool)
    requires
        r.len() == a.len(),
        val(r) + bit(carry) * pow2(a.len()) == val(a) + val(b),
    ensures
        val(r) == (val(a) + val(b)) % pow2(a.len()),
        r == add_bus(a, b),
{
    let m = pow2(a.len());
    lemma_pow2_pos(a.len());
    lemma_val_bound(r);
    if carry {
        vstd::arithmetic::div_mod::lemma_mod_add_multiples_vanish(val(r) as int, m as int);
    }
    vstd::arithmetic::div_mod::lemma_small_mod(val(r), m);
    lemma_bus_of_val(r);
    lemma_bus_of_mod(val(a) + val(b), a.len());
}

/// The bus with only its last bit high has value one.
pub proof fn lemma_val_unit(len: nat)
    requires
        len > 0,
    ensures
        val(zeros((len - 1) as nat).push(true)) == 1,
{
    let s = zeros((len - 1) as nat).push(true);
    assert(s.drop_last() =~= zeros((len - 1) as nat));
    lemma_val_zeros((len - 1) as nat);
}

} // verus!
