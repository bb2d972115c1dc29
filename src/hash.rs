//! The Pedersen hash: chunk decomposition and accumulation of generator multiples.

use vstd::prelude::*;
use vstd::arithmetic::div_mod::lemma_fundamental_div_mod_converse;
use crate::field::{
    be_value, lemma_be_lex, lemma_be_value_bound, lemma_be_value_padded, pow256, prime,
    prime_bytes, zero_padded, FieldElement, FELT_BYTES,
};
use crate::curve::{
    add_points, curve_add, curve_mul, mul_point, pedersen_p0, pedersen_p0_x, pedersen_p0_y,
    pedersen_p1, pedersen_p1_x, pedersen_p1_y, pedersen_p2, pedersen_p2_x, pedersen_p2_y,
    pedersen_p3, pedersen_p3_x, pedersen_p3_y, shift_point, shift_point_x, shift_point_y, x_of,
    PointModel,
};

verus! {

/// `2^248`: the low chunk of an input holds its 248 low bits, the high chunk the 4 bits above.
pub open spec fn low_chunk_base() -> nat {
    pow256(31)
}

/// The point that the hash of `x` and `y` accumulates:
/// `SHIFT + x_low * P0 + x_high * P1 + y_low * P2 + y_high * P3`, added in this order.
pub open spec fn hash_point(x: nat, y: nat) -> PointModel {
    let b = low_chunk_base();
    let s = PointModel::Affine(shift_point_x(), shift_point_y());
    let a1 = curve_add(s, curve_mul(PointModel::Affine(pedersen_p0_x(), pedersen_p0_y()), x % b));
    let a2 = curve_add(a1, curve_mul(PointModel::Affine(pedersen_p1_x(), pedersen_p1_y()), x / b));
    let a3 = curve_add(a2, curve_mul(PointModel::Affine(pedersen_p2_x(), pedersen_p2_y()), y % b));
    curve_add(a3, curve_mul(PointModel::Affine(pedersen_p3_x(), pedersen_p3_y()), y / b))
}

/// The hash of `x` and `y`: the affine x-coordinate of the accumulated point, in big-endian bytes.
pub open spec fn hash_model(x: nat, y: nat) -> Seq<u8> {
    x_of(hash_point(x, y))
}

/// Splits a field element into its low chunk (the 248 low bits) and its high chunk (the bits above).
pub fn decompose(x: &FieldElement) -> (r: (FieldElement, FieldElement))
    requires
        x.wf(),
    ensures
        r.0.wf(),
        r.1.wf(),
        r.0.value() == x.value() % low_chunk_base(),
        r.1.value() == (x.value() / low_chunk_base()) % 16,
        r.1.value() == x.value() / low_chunk_base(),
        r.0.value() < low_chunk_base(),
        r.1.value() < 16,
        r.0.value() + r.1.value() * low_chunk_base() == x.value(),
{
    let top: u8 = x.be[0];
    let mut low: Vec<u8> = x.be.clone();
    low.set(0, 0u8);
    let mut high: Vec<u8> = vec![0u8; FELT_BYTES];
    high.set(31, top);
    proof {
        let s = x@;
        let b = low_chunk_base();
        let rest = s.subrange(1, 32);
        assert(low@.subrange(1, 32) =~= rest);
        lemma_be_value_bound(rest);
        assert(low@[0] == 0u8);
        assert(low@[0] as nat * b == 0);
        assert(be_value(low@) == be_value(rest));
        assert(be_value(s) == top as nat * b + be_value(rest));
        assert(high@ =~= zero_padded(seq![top], 32));
        lemma_be_value_padded(seq![top], 32);
        assert(seq![top].subrange(1, 1) =~= Seq::<u8>::empty());
        assert(pow256(0) == 1);
        assert(be_value(Seq::<u8>::empty()) == 0);
        assert(be_value(seq![top]) == top as nat);
        lemma_fundamental_div_mod_converse(
            be_value(s) as int,
            b as int,
            top as int,
            be_value(rest) as int,
        );
        if top > 8 {
            assert(s.subrange(0, 0) =~= prime_bytes().subrange(0, 0));
            lemma_be_lex(prime_bytes(), s, 0);
        }
        assert(low@.subrange(0, 0) =~= prime_bytes().subrange(0, 0));
        lemma_be_lex(low@, prime_bytes(), 0);
        assert(high@.subrange(0, 0) =~= prime_bytes().subrange(0, 0));
        lemma_be_lex(high@, prime_bytes(), 0);
    }
    (FieldElement { be: low }, FieldElement { be: high })
}

/// Hashing is a function of the inputs' values alone: any two results that the
/// contract of [`hash`] admits for the same inputs are equal.
pub proof fn lemma_hash_deterministic(
    x: FieldElement,
    y: FieldElement,
    r1: FieldElement,
    r2: FieldElement,
)
    requires
        x.wf(),
        y.wf(),
        r1@ == hash_model(x.value(), y.value()),
        r2@ == hash_model(x.value(), y.value()),
    ensures
        r1@ == r2@,
        r1.value() == r2.value(),
{
}

/// The Pedersen hash of two field elements.
pub fn hash(x: &FieldElement, y: &FieldElement) -> (r: FieldElement)
    requires
        x.wf(),
        y.wf(),
    ensures
        r.wf(),
        r.value() < prime(),
        r@ == hash_model(x.value(), y.value()),
        x.value() == 0 && y.value() == 0 ==> r@ == shift_point_x(),
{
    let (x_low, x_high) = decompose(x);
    let (y_low, y_high) = decompose(y);
    let acc = shift_point();
    let acc = add_points(&acc, &mul_point(&pedersen_p0(), &x_low));
    let acc = add_points(&acc, &mul_point(&pedersen_p1(), &x_high));
    let acc = add_points(&acc, &mul_point(&pedersen_p2(), &y_low));
    let acc = add_points(&acc, &mul_point(&pedersen_p3(), &y_high));
    if acc.infinity {
        FieldElement::zero()
    } else {
        acc.x
    }
}

} // verus!
