//! The laws of the field, stated over the functions in which the contracts
//! of the arithmetic are written.
use crate::algebra::{
    gf_div, gf_inv, gf_mul, gf_pow, lemma_mul_distributes_right, lemma_mul_unit_and_zero,
};
use crate::group::{lemma_inverse_of_nonzero, lemma_mul_associative, lemma_mul_commutative};
use crate::element::GF;
use crate::simd::{lemma_lanewise_lanes, GF256Simd};
use vstd::prelude::*;
use vstd::std_specs::ops::{AddSpec, DivSpec, MulSpec, SubSpec};

verus! {

/// Every element is its own additive inverse, and zero is the additive
/// identity.
pub proof fn law_add_identities(a: u8)
    by (bit_vector)
    ensures
        a ^ a == 0,
        a ^ 0 == a,
{
}

/// One is the multiplicative identity, and the product with zero is zero.
pub proof fn law_mul_identities(a: u8)
    ensures
        gf_mul(a, 1) == a,
        gf_mul(a, 0) == 0,
{
    lemma_mul_unit_and_zero(a);
}

/// The product of a nonzero element and its inverse is one, and so is the
/// quotient of a nonzero element by itself.
pub proof fn law_inverse(a: u8)
    requires
        a != 0,
    ensures
        gf_mul(a, gf_inv(a)) == 1,
        gf_div(a, a) == 1,
{
    lemma_inverse_of_nonzero(a);
}

/// Only the inverse of an element gives one when multiplied by it.
pub proof fn law_inverse_is_unique(a: u8, b: u8)
    requires
        gf_mul(a, b) == 1,
    ensures
        a != 0,
        b == gf_inv(a),
{
    lemma_mul_unit_and_zero(b);
    lemma_mul_unit_and_zero(gf_inv(a));
    if a != 0 {
        lemma_inverse_of_nonzero(a);
        lemma_mul_commutative(a, gf_inv(a));
        lemma_mul_associative(gf_inv(a), a, b);
    }
}

/// Addition is associative.
pub proof fn law_add_associative(a: u8, b: u8, c: u8)
    by (bit_vector)
    ensures
        (a ^ b) ^ c == a ^ (b ^ c),
{
}

/// Multiplication distributes over addition.
pub proof fn law_distributive(a: u8, b: u8, c: u8)
    ensures
        gf_mul(a, b ^ c) == gf_mul(a, b) ^ gf_mul(a, c),
{
    lemma_mul_distributes_right(a, b, c);
}

/// To divide by a nonzero element undoes the multiplication by it.
pub proof fn law_div_undoes_mul(a: u8, b: u8)
    requires
        b != 0,
    ensures
        gf_div(gf_mul(a, b), b) == a,
{
    lemma_inverse_of_nonzero(b);
    lemma_mul_associative(a, b, gf_inv(b));
    lemma_mul_unit_and_zero(a);
}

/// The power zero of every element, zero included, is one; the first power
/// is the element; the second is its product with itself.
pub proof fn law_small_powers(a: u8)
    ensures
        gf_pow(a, 0) == 1,
        gf_pow(a, 1) == a,
        gf_pow(a, 2) == gf_mul(a, a),
{
    reveal_with_fuel(gf_pow, 3);
    lemma_mul_unit_and_zero(a);
}

/// Each lane of the sum, the difference, the product and the quotient of
/// two lane vectors is what the scalar operation gives for that lane.
pub proof fn law_lanes_follow_scalar<const LANES: usize>(
    a: GF256Simd<LANES>,
    b: GF256Simd<LANES>,
    i: int,
)
    requires
        0 <= i < LANES,
    ensures
        <GF256Simd<LANES> as AddSpec>::add_spec(a, b).0@[i] == <GF<u8> as AddSpec>::add_spec(
            GF(a.0@[i]),
            GF(b.0@[i]),
        ).0,
        <GF256Simd<LANES> as SubSpec>::sub_spec(a, b).0@[i] == <GF<u8> as SubSpec>::sub_spec(
            GF(a.0@[i]),
            GF(b.0@[i]),
        ).0,
        <GF256Simd<LANES> as MulSpec>::mul_spec(a, b).0@[i] == <GF<u8> as MulSpec>::mul_spec(
            GF(a.0@[i]),
            GF(b.0@[i]),
        ).0,
        <GF256Simd<LANES> as DivSpec>::div_spec(a, b).0@[i] == <GF<u8> as DivSpec>::div_spec(
            GF(a.0@[i]),
            GF(b.0@[i]),
        ).0,
{
    lemma_lanewise_lanes(a.0, b.0, |x: u8, y: u8| x ^ y);
    lemma_lanewise_lanes(a.0, b.0, |x: u8, y: u8| gf_mul(x, y));
    lemma_lanewise_lanes(a.0, b.0, |x: u8, y: u8| gf_div(x, y));
}

} // verus!
