//! The mathematical model of GF(2^8).
//!
//! A field element is a byte read as a polynomial of degree below eight over
//! GF(2): bit `k` is the coefficient of `x^k`.  Addition is XOR.  The product
//! is the product of the two polynomials reduced modulo
//! `x^8 + x^4 + x^3 + x^2 + 1` (`0x11D`).  Everything the executable code
//! computes through its tables is stated against the functions of this module.
use vstd::prelude::*;

verus! {

/// The product of `a` and the polynomial `x`, reduced modulo `0x11D`.
pub open spec fn xtime(a: u8) -> u8 {
    if a & 0x80 == 0 {
        a << 1
    } else {
        (a << 1) ^ 0x1d
    }
}

/// `a` if the coefficient of `x^k` in `b` is one, and zero otherwise.
pub open spec fn scaled_by_bit(a: u8, b: u8, k: u8) -> u8 {
    if (b >> k) & 1 == 1 {
        a
    } else {
        0
    }
}

/// The product of two field elements: the sum, over the terms `x^k` of `b`,
/// of `a * x^k`.
pub open spec fn gf_mul(a: u8, b: u8) -> u8 {
    let a1 = xtime(a);
    let a2 = xtime(a1);
    let a3 = xtime(a2);
    let a4 = xtime(a3);
    let a5 = xtime(a4);
    let a6 = xtime(a5);
    let a7 = xtime(a6);
    scaled_by_bit(a, b, 0)
        ^ scaled_by_bit(a1, b, 1)
        ^ scaled_by_bit(a2, b, 2)
        ^ scaled_by_bit(a3, b, 3)
        ^ scaled_by_bit(a4, b, 4)
        ^ scaled_by_bit(a5, b, 5)
        ^ scaled_by_bit(a6, b, 6)
        ^ scaled_by_bit(a7, b, 7)
}

/// `a` raised to the power `n`, with `a^0 == 1` for every `a`.
pub open spec fn gf_pow(a: u8, n: nat) -> u8
    decreases n,
{
    if n == 0 {
        1
    } else {
        gf_mul(a, gf_pow(a, (n - 1) as nat))
    }
}

/// The multiplicative inverse of a nonzero element, as the power `a^254`.
/// (The nonzero elements form a group of order 255.)  Of zero it says
/// nothing useful: zero has no inverse.
pub open spec fn gf_inv(a: u8) -> u8 {
    gf_pow(a, 254)
}

/// The quotient `a / b` for a nonzero divisor `b`.
pub open spec fn gf_div(a: u8, b: u8) -> u8 {
    gf_mul(a, gf_inv(b))
}

/// The `i`-th power of the generator `x` (the byte 2).
pub open spec fn generator_power(i: nat) -> u8
    decreases i,
{
    if i == 0 {
        1
    } else {
        xtime(generator_power((i - 1) as nat))
    }
}

/// The discrete logarithm of a nonzero element: the exponent below 255 at
/// which the generator reaches it.
pub open spec fn discrete_log(v: u8) -> nat {
    choose|l: nat| l < 255 && generator_power(l) == v
}

/// What stands for the logarithm of zero, which has none: a value so large
/// that its sum with any logarithm, and with itself, lies beyond the two
/// periods of the antilogarithm table, where that table holds zero.
pub const LOG_OF_ZERO: usize = 512;

/// What the logarithm table holds for `v`: the discrete logarithm of a
/// nonzero `v`, and `LOG_OF_ZERO` for zero.
pub open spec fn logarithm(v: u8) -> nat {
    if v == 0 {
        LOG_OF_ZERO as nat
    } else {
        discrete_log(v)
    }
}

/// What the antilogarithm table holds at `i`: two periods of the powers of
/// the generator, so that the sum of two logarithms needs no reduction, and
/// zero from 510 on.
pub open spec fn antilog(i: int) -> u8 {
    if 0 <= i < 510 {
        generator_power(i as nat)
    } else {
        0
    }
}

/// Multiplication by one and by zero, on either side.
pub proof fn lemma_mul_unit_and_zero(a: u8)
    by (bit_vector)
    ensures
        gf_mul(a, 1) == a,
        gf_mul(1, a) == a,
        gf_mul(a, 0) == 0,
        gf_mul(0, a) == 0,
{
}

/// Multiplication distributes over addition in its second argument.
pub proof fn lemma_mul_distributes_right(a: u8, b: u8, c: u8)
    by (bit_vector)
    ensures
        gf_mul(a, b ^ c) == gf_mul(a, b) ^ gf_mul(a, c),
{
}

/// Multiplying the first factor by `x` multiplies the product by `x`.
#[verifier::rlimit(50)]
pub proof fn lemma_mul_xtime_left(a: u8, b: u8)
    by (bit_vector)
    ensures
        gf_mul(xtime(a), b) == xtime(gf_mul(a, b)),
{
}

/// `xtime` written with integer arithmetic only, so that it can be evaluated
/// on a given byte without reasoning about bits.
pub open spec fn xtime_arithmetic(a: u8) -> int {
    if a < 128 {
        2 * a
    } else {
        let t = 2 * a - 256;
        let low = t % 32;
        t - 2 * low + 29 + 4 * ((low / 2) % 2)
    }
}

/// The two ways of writing `xtime` agree.
pub proof fn lemma_xtime_arithmetic(a: u8)
    by (bit_vector)
    ensures
        xtime(a) == xtime_arithmetic(a),
{
}

} // verus!
