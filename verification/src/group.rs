//! The multiplicative group of GF(2^8) seen through its logarithms: every
//! nonzero element is a power of the generator, and the product of two
//! powers is the power of the sum of the exponents.
use crate::algebra::{
    antilog, discrete_log, generator_power, gf_div, gf_inv, gf_mul, gf_pow, lemma_mul_unit_and_zero,
    lemma_mul_xtime_left, logarithm, xtime,
};
use crate::tables::{
    lemma_generator_order, lemma_log_entry, lemma_log_of_power, log_entry,
};
use vstd::arithmetic::div_mod::lemma_mul_mod_noop_left;
use vstd::prelude::*;

verus! {

/// Going 255 steps further along the powers of the generator changes
/// nothing.
pub proof fn lemma_generator_power_wraps(i: nat)
    ensures
        generator_power(i + 255) == generator_power(i),
    decreases i,
{
    if i == 0 {
        lemma_generator_order();
    } else {
        lemma_generator_power_wraps((i - 1) as nat);
    }
}

/// The powers of the generator repeat with period 255.
pub proof fn lemma_generator_power_periodic(i: nat)
    ensures
        generator_power(i) == generator_power(i % 255),
    decreases i,
{
    if i >= 255 {
        let j = (i - 255) as nat;
        lemma_generator_power_periodic(j);
        lemma_generator_power_wraps(j);
        assert(j + 255 == i);
        assert(j % 255 == i % 255);
    }
}

/// No power of the generator is zero.
pub proof fn lemma_generator_power_nonzero(i: nat)
    ensures
        generator_power(i) != 0,
{
    lemma_generator_power_periodic(i);
    lemma_log_of_power(i % 255);
}

/// Every nonzero element has a discrete logarithm.
pub proof fn lemma_discrete_log(v: u8)
    requires
        v != 0,
    ensures
        discrete_log(v) < 255,
        generator_power(discrete_log(v)) == v,
{
    lemma_log_entry(v);
    let l = log_entry(v) as nat;
    assert(l < 255 && generator_power(l) == v);
}

/// The discrete logarithm is the only exponent below 255 at which the
/// generator reaches `v`.
pub proof fn lemma_discrete_log_unique(v: u8, l: nat)
    requires
        l < 255,
        generator_power(l) == v,
    ensures
        discrete_log(v) == l,
{
    lemma_log_of_power(l);
    lemma_discrete_log(v);
    lemma_log_of_power(discrete_log(v));
}

/// The product of two powers of the generator is the power of the sum of
/// the exponents.
pub proof fn lemma_mul_of_powers(i: nat, j: nat)
    ensures
        gf_mul(generator_power(i), generator_power(j)) == generator_power(i + j),
    decreases i,
{
    if i == 0 {
        lemma_mul_unit_and_zero(generator_power(j));
    } else {
        let k = (i - 1) as nat;
        lemma_mul_of_powers(k, j);
        lemma_mul_xtime_left(generator_power(k), generator_power(j));
        assert(generator_power(i) == xtime(generator_power(k)));
        assert(generator_power(i + j) == xtime(generator_power((i + j - 1) as nat)));
        assert(k + j == i + j - 1);
    }
}

/// Multiplication is commutative.
pub proof fn lemma_mul_commutative(a: u8, b: u8)
    ensures
        gf_mul(a, b) == gf_mul(b, a),
{
    lemma_mul_unit_and_zero(a);
    lemma_mul_unit_and_zero(b);
    if a != 0 && b != 0 {
        lemma_discrete_log(a);
        lemma_discrete_log(b);
        lemma_mul_of_powers(discrete_log(a), discrete_log(b));
        lemma_mul_of_powers(discrete_log(b), discrete_log(a));
    }
}

/// Multiplication is associative.
pub proof fn lemma_mul_associative(a: u8, b: u8, c: u8)
    ensures
        gf_mul(gf_mul(a, b), c) == gf_mul(a, gf_mul(b, c)),
{
    lemma_mul_unit_and_zero(a);
    lemma_mul_unit_and_zero(b);
    lemma_mul_unit_and_zero(c);
    lemma_mul_unit_and_zero(gf_mul(a, b));
    lemma_mul_unit_and_zero(gf_mul(b, c));
    if a != 0 && b != 0 && c != 0 {
        lemma_discrete_log(a);
        lemma_discrete_log(b);
        lemma_discrete_log(c);
        let i = discrete_log(a);
        let j = discrete_log(b);
        let k = discrete_log(c);
        lemma_mul_of_powers(i, j);
        lemma_mul_of_powers(i + j, k);
        lemma_mul_of_powers(j, k);
        lemma_mul_of_powers(i, j + k);
        assert((i + j) + k == i + (j + k));
    }
}

/// A power of a power of the generator is the power of the product of the
/// exponents.
pub proof fn lemma_pow_of_power(l: nat, n: nat)
    ensures
        gf_pow(generator_power(l), n) == generator_power(l * n),
    decreases n,
{
    if n == 0 {
        assert(l * n == 0);
    } else {
        let m = (n - 1) as nat;
        lemma_pow_of_power(l, m);
        lemma_mul_of_powers(l, l * m);
        assert(l + l * m == l * n) by (nonlinear_arith)
            requires
                m == n - 1,
        ;
    }
}

/// The power of a sum of exponents is the product of the powers.
pub proof fn lemma_pow_adds(a: u8, m: nat, n: nat)
    ensures
        gf_pow(a, m + n) == gf_mul(gf_pow(a, m), gf_pow(a, n)),
    decreases m,
{
    if m == 0 {
        lemma_mul_unit_and_zero(gf_pow(a, n));
    } else {
        let k = (m - 1) as nat;
        lemma_pow_adds(a, k, n);
        lemma_mul_associative(a, gf_pow(a, k), gf_pow(a, n));
        assert(gf_pow(a, m + n) == gf_mul(a, gf_pow(a, (m + n - 1) as nat)));
        assert(m + n - 1 == k + n);
    }
}

/// A power of a square is the power of twice the exponent.
pub proof fn lemma_pow_of_square(b: u8, n: nat)
    ensures
        gf_pow(gf_mul(b, b), n) == gf_pow(b, 2 * n),
    decreases n,
{
    if n > 0 {
        let k = (n - 1) as nat;
        lemma_pow_of_square(b, k);
        lemma_pow_adds(b, 2, 2 * k);
        assert(gf_pow(b, 2) == gf_mul(b, b)) by {
            reveal_with_fuel(gf_pow, 3);
            lemma_mul_unit_and_zero(b);
        }
        assert(2 + 2 * k == 2 * n);
    }
}

/// One round of raising to a power by squaring: the lowest bit of the
/// exponent decides whether the base goes into the product, and the rest of
/// the exponent is left for the square of the base.
pub proof fn lemma_pow_square_step(acc: u8, base: u8, e: nat)
    ensures
        gf_mul(acc, gf_pow(base, e)) == gf_mul(
            if e % 2 == 1 {
                gf_mul(acc, base)
            } else {
                acc
            },
            gf_pow(gf_mul(base, base), e / 2),
        ),
{
    let h = e / 2;
    lemma_pow_of_square(base, h);
    if e % 2 == 1 {
        assert(e == 2 * h + 1);
        assert(gf_pow(base, e) == gf_mul(base, gf_pow(base, 2 * h)));
        lemma_mul_associative(acc, base, gf_pow(base, 2 * h));
    } else {
        assert(e == 2 * h);
    }
}

/// A positive power of zero is zero.
pub proof fn lemma_pow_of_zero(n: nat)
    requires
        n > 0,
    ensures
        gf_pow(0, n) == 0,
{
    lemma_mul_unit_and_zero(gf_pow(0, (n - 1) as nat));
}

/// The inverse of a nonzero element is the power of the generator whose
/// exponent is 255 less the discrete logarithm, and it is an inverse indeed.
pub proof fn lemma_inverse_of_nonzero(a: u8)
    requires
        a != 0,
    ensures
        gf_inv(a) != 0,
        gf_inv(a) == generator_power((255 - discrete_log(a)) as nat),
        gf_mul(a, gf_inv(a)) == 1,
{
    lemma_discrete_log(a);
    let l = discrete_log(a);
    lemma_pow_of_power(l, 254);
    lemma_generator_power_periodic(l * 254);
    lemma_generator_power_periodic((255 - l) as nat);
    assert((l * 254) % 255 == (255 - l) % 255) by {
        assert(l * 254 == 255 * (l - 1) + (255 - l));
        vstd::arithmetic::div_mod::lemma_mod_multiples_vanish(l - 1, 255 - l, 255);
    }
    lemma_mul_of_powers(l, (255 - l) as nat);
    lemma_generator_order();
    lemma_generator_power_nonzero((255 - l) as nat);
}

/// What a lookup of the sum of two logarithms finds is the product.  For a
/// zero factor the sum lies in the zero-filled tail of the table.
pub proof fn lemma_mul_by_logarithms(a: u8, b: u8)
    ensures
        logarithm(a) + logarithm(b) < 1025,
        antilog((logarithm(a) + logarithm(b)) as int) == gf_mul(a, b),
{
    lemma_mul_unit_and_zero(a);
    lemma_mul_unit_and_zero(b);
    if a != 0 {
        lemma_discrete_log(a);
    }
    if b != 0 {
        lemma_discrete_log(b);
    }
    if a != 0 && b != 0 {
        lemma_mul_of_powers(discrete_log(a), discrete_log(b));
    }
}

/// What a lookup of the difference of two logarithms, moved up by one
/// period, finds is the quotient.  For a zero dividend the index lies in the
/// zero-filled tail of the table.
pub proof fn lemma_div_by_logarithms(a: u8, b: u8)
    requires
        b != 0,
    ensures
        logarithm(b) < 255,
        logarithm(a) + 255 - logarithm(b) < 1025,
        antilog(logarithm(a) + 255 - logarithm(b)) == gf_div(a, b),
{
    lemma_discrete_log(b);
    lemma_inverse_of_nonzero(b);
    lemma_mul_unit_and_zero(gf_inv(b));
    if a != 0 {
        lemma_discrete_log(a);
        lemma_mul_of_powers(discrete_log(a), (255 - discrete_log(b)) as nat);
    }
}

/// What a lookup of 255 less the logarithm finds is the inverse.
pub proof fn lemma_inv_by_logarithms(a: u8)
    requires
        a != 0,
    ensures
        logarithm(a) < 255,
        antilog(255 - logarithm(a) % 255) == gf_inv(a),
{
    lemma_discrete_log(a);
    lemma_inverse_of_nonzero(a);
}

/// What a lookup of the product of exponent and logarithm, reduced modulo
/// 255, finds is the power, for a nonzero base.
pub proof fn lemma_pow_by_logarithms(a: u8, n: nat)
    requires
        a != 0,
    ensures
        logarithm(a) < 255,
        antilog((((n % 255) * logarithm(a)) % 255) as int) == gf_pow(a, n),
{
    lemma_discrete_log(a);
    let l = discrete_log(a);
    lemma_pow_of_power(l, n);
    lemma_generator_power_periodic(l * n);
    lemma_mul_mod_noop_left(n as int, l as int, 255);
    assert(l * n == n * l) by (nonlinear_arith);
}

} // verus!
