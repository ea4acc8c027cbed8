//! The 16-bit ALU: six control bits pick one operation of a fixed repertoire
//! over two buses, and two status flags describe the result.
use crate::adders::adder16;
use crate::basic_gates::not;
use crate::bus::{
    add_bus, and_bus, lemma_bus_of_val, lemma_val_bound, lemma_val_bus_of, lemma_val_not,
    lemma_val_zeros, not_bus, or_bus, val, zeros,
};
use vstd::arithmetic::power2::lemma2_to64;
use crate::multibit_basic_gates::{and16, mux16, not16};
use crate::multiway_basic_gates::or16way;
use crate::Arr16;
use vstd::prelude::*;

verus! {

/// An operand after its treatment: cleared when `z`, then complemented when `n`.
pub open spec fn preset(x: Seq<bool>, z: bool, n: bool) -> Seq<bool> {
    let cleared = if z {
        zeros(x.len())
    } else {
        x
    };
    if n {
        not_bus(cleared)
    } else {
        cleared
    }
}

/// The ALU's result bus: the sum of the treated operands when `f`, their
/// bitwise AND otherwise, complemented when `no`.
pub open spec fn alu_out(
    x: Seq<bool>,
    y: Seq<bool>,
    zx: bool,
    nx: bool,
    zy: bool,
    ny: bool,
    f: bool,
    no: bool,
) -> Seq<bool> {
    let xs = preset(x, zx, nx);
    let ys = preset(y, zy, ny);
    let out = if f {
        add_bus(xs, ys)
    } else {
        and_bus(xs, ys)
    };
    if no {
        not_bus(out)
    } else {
        out
    }
}

/// The zero flag: every bit of the bus is low.
pub open spec fn is_zero(s: Seq<bool>) -> bool {
    forall|i: int| 0 <= i < s.len() ==> !s[i]
}

/// The ALU. Returns the result bus, the zero flag (every result bit low) and
/// the negative flag (the result's most significant bit, its two's-complement
/// sign).
pub fn alu(
    x: Arr16,
    y: Arr16,
    zx: bool,
    nx: bool,
    zy: bool,
    ny: bool,
    f: bool,
    no: bool,
) -> (r: (Arr16, bool, bool))
    ensures
        r.0@ == alu_out(x@, y@, zx, nx, zy, ny, f, no),
        r.1 == is_zero(r.0@),
        r.2 == r.0@[0],
{
    let zero: Arr16 = [false; 16];
    assert(zero@ =~= zeros(16));
    let x = mux16(x, zero, zx);
    let x = mux16(x, not16(x), nx);

    let y = mux16(y, zero, zy);
    let y = mux16(y, not16(y), ny);

    let result = mux16(and16(x, y), adder16(x, y), f);
    let result = mux16(result, not16(result), no);

    let zr = not(or16way(result));
    let ng = result[0];

    (result, zr, ng)
}

/// Clearing both operands and adding them gives the all-low bus, whatever
/// the operands, and the zero flag is raised.
pub proof fn lemma_alu_constant_zero(x: Seq<bool>, y: Seq<bool>)
    requires
        x.len() == 16,
        y.len() == 16,
    ensures
        alu_out(x, y, true, false, true, false, true, false) == zeros(16),
        is_zero(alu_out(x, y, true, false, true, false, true, false)),
{
    lemma_val_zeros(16);
    lemma_bus_of_val(zeros(16));
}

/// Complementing `x`, ANDing it with the complement of a cleared `y` and
/// complementing the result gives `x` back.
pub proof fn lemma_alu_passes_x(x: Seq<bool>, y: Seq<bool>)
    requires
        x.len() == 16,
        y.len() == 16,
    ensures
        alu_out(x, y, false, true, true, true, false, true) == x,
{
    assert(alu_out(x, y, false, true, true, true, false, true) =~= x);
}

/// What the ALU's contract needs of its 16-bit arithmetic: bounds, the value
/// of a complement and the value of a wrapped sum.
proof fn lemma_word_facts(a: Seq<bool>, b: Seq<bool>)
    requires
        a.len() == 16,
        b.len() == 16,
    ensures
        val(a) < 65536,
        val(not_bus(a)) == 65535 - val(a),
        not_bus(a).len() == 16,
        add_bus(a, b).len() == 16,
        val(add_bus(a, b)) == (val(a) + val(b)) % 65536,
        not_bus(not_bus(a)) == a,
{
    lemma2_to64();
    lemma_val_bound(a);
    lemma_val_not(a);
    lemma_val_bus_of(val(a) + val(b), 16);
    assert(not_bus(not_bus(a)) =~= a);
}

/// The constant operations: `0`, `1` and `-1`, whatever the operands.
pub proof fn lemma_alu_constants(x: Seq<bool>, y: Seq<bool>)
    requires
        x.len() == 16,
        y.len() == 16,
    ensures
        val(alu_out(x, y, true, false, true, false, true, false)) == 0,
        val(alu_out(x, y, true, true, true, true, true, true)) == 1,
        val(alu_out(x, y, true, true, true, false, true, false)) == 65535,
{
    let z = zeros(16);
    lemma_val_zeros(16);
    lemma_word_facts(z, z);
    lemma_word_facts(not_bus(z), not_bus(z));
    lemma_word_facts(not_bus(z), z);
    lemma_word_facts(add_bus(not_bus(z), not_bus(z)), z);
}

/// The operations that pass an operand on, as it is or complemented:
/// `x`, `y`, `!x` and `!y`.
pub proof fn lemma_alu_operands(x: Seq<bool>, y: Seq<bool>)
    requires
        x.len() == 16,
        y.len() == 16,
    ensures
        alu_out(x, y, false, false, true, true, false, false) == x,
        alu_out(x, y, true, true, false, false, false, false) == y,
        alu_out(x, y, false, false, true, true, false, true) == not_bus(x),
        alu_out(x, y, true, true, false, false, false, true) == not_bus(y),
{
    assert(alu_out(x, y, false, false, true, true, false, false) =~= x);
    assert(alu_out(x, y, true, true, false, false, false, false) =~= y);
    assert(alu_out(x, y, false, false, true, true, false, true) =~= not_bus(x));
    assert(alu_out(x, y, true, true, false, false, false, true) =~= not_bus(y));
}

/// The complement of `!a + b` is `a - b`, modulo `2^16`.
proof fn lemma_complement_of_sum(a: Seq<bool>, b: Seq<bool>)
    requires
        a.len() == 16,
        b.len() == 16,
    ensures
        val(not_bus(add_bus(not_bus(a), b))) == (val(a) + 65536 - val(b)) % 65536,
{
    lemma_word_facts(a, b);
    lemma_word_facts(not_bus(a), b);
    lemma_word_facts(add_bus(not_bus(a), b), b);
}

/// Negation, on the operands' unsigned values modulo `2^16`: `-x` and `-y`.
pub proof fn lemma_alu_negation(x: Seq<bool>, y: Seq<bool>)
    requires
        x.len() == 16,
        y.len() == 16,
    ensures
        val(alu_out(x, y, false, false, true, true, true, true)) == (65536 - val(x)) % 65536,
        val(alu_out(x, y, true, true, false, false, true, true)) == (65536 - val(y)) % 65536,
{
    let ones = not_bus(zeros(16));
    lemma_val_zeros(16);
    lemma_word_facts(zeros(16), zeros(16));
    lemma_word_facts(x, ones);
    lemma_word_facts(y, ones);
    lemma_complement_of_sum(not_bus(x), ones);
    lemma_complement_of_sum(not_bus(y), ones);
    assert(add_bus(ones, y) == add_bus(not_bus(not_bus(y)), ones));
}

/// Increment and decrement, modulo `2^16`: `x+1`, `y+1`, `x-1` and `y-1`.
pub proof fn lemma_alu_increment(x: Seq<bool>, y: Seq<bool>)
    requires
        x.len() == 16,
        y.len() == 16,
    ensures
        val(alu_out(x, y, false, true, true, true, true, true)) == (val(x) + 1) % 65536,
        val(alu_out(x, y, true, true, false, true, true, true)) == (val(y) + 1) % 65536,
        val(alu_out(x, y, false, false, true, true, true, false)) == (val(x) + 65535) % 65536,
        val(alu_out(x, y, true, true, false, false, true, false)) == (val(y) + 65535) % 65536,
{
    let ones = not_bus(zeros(16));
    lemma_val_zeros(16);
    lemma_word_facts(zeros(16), zeros(16));
    lemma_word_facts(x, ones);
    lemma_word_facts(ones, y);
    lemma_complement_of_sum(x, ones);
    lemma_complement_of_sum(y, ones);
    assert(add_bus(ones, not_bus(y)) == add_bus(not_bus(y), ones));
}

/// Addition and subtraction, modulo `2^16`: `x+y`, `x-y` and `y-x`.
pub proof fn lemma_alu_sum_difference(x: Seq<bool>, y: Seq<bool>)
    requires
        x.len() == 16,
        y.len() == 16,
    ensures
        val(alu_out(x, y, false, false, false, false, true, false)) == (val(x) + val(y)) % 65536,
        val(alu_out(x, y, false, true, false, false, true, true)) == (val(x) + 65536 - val(y))
            % 65536,
        val(alu_out(x, y, false, false, false, true, true, true)) == (val(y) + 65536 - val(x))
            % 65536,
{
    lemma_word_facts(x, y);
    lemma_complement_of_sum(x, y);
    lemma_complement_of_sum(y, x);
    assert(add_bus(x, not_bus(y)) == add_bus(not_bus(y), x));
}

/// The bitwise operations: `x&y`, and `x|y` by De Morgan.
pub proof fn lemma_alu_logic(x: Seq<bool>, y: Seq<bool>)
    requires
        x.len() == 16,
        y.len() == 16,
    ensures
        alu_out(x, y, false, false, false, false, false, false) == and_bus(x, y),
        alu_out(x, y, false, true, false, true, false, true) == or_bus(x, y),
{
    assert(alu_out(x, y, false, false, false, false, false, false) =~= and_bus(x, y));
    assert(alu_out(x, y, false, true, false, true, false, true) =~= or_bus(x, y));
}

} // verus!
