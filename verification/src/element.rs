//! The field element type and its scalar arithmetic.
use crate::algebra::{gf_div, gf_inv, gf_mul, gf_pow, lemma_mul_unit_and_zero};
use crate::group::{
    lemma_div_by_logarithms, lemma_inv_by_logarithms, lemma_mul_by_logarithms,
    lemma_pow_by_logarithms, lemma_pow_of_zero, lemma_pow_square_step,
};
use crate::tables::{alog, log};
use std::ops::{Add, Div, Mul, Neg, Sub};
use vstd::prelude::*;
use vstd::std_specs::convert::FromSpecImpl;
use vstd::std_specs::ops::{AddSpecImpl, DivSpecImpl, MulSpecImpl, NegSpecImpl, SubSpecImpl};

verus! {

/// An element of a binary field, held as the integer whose bits are the
/// coefficients of its polynomial.
#[derive(PartialEq, Eq, Structural, Clone, Copy, Default, Hash, Debug)]
pub struct GF<T>(pub T);

/// An element of GF(2^8).
pub type GF256 = GF<u8>;

impl GF<u8> {
    /// The additive identity.
    pub fn zero() -> (r: Self)
        ensures
            r.0 == 0,
    {
        GF(0)
    }

    /// The multiplicative identity.
    pub fn one() -> (r: Self)
        ensures
            r.0 == 1,
    {
        GF(1)
    }

    /// Whether this is the additive identity.
    pub fn is_zero(&self) -> (r: bool)
        ensures
            r == (self.0 == 0),
    {
        self.0 == 0
    }
}

impl From<u8> for GF<u8> {
    fn from(u: u8) -> (r: Self) {
        GF(u)
    }
}

impl FromSpecImpl<u8> for GF<u8> {
    open spec fn obeys_from_spec() -> bool {
        true
    }

    open spec fn from_spec(u: u8) -> Self {
        GF(u)
    }
}

impl From<GF<u8>> for u8 {
    fn from(x: GF<u8>) -> (r: Self) {
        x.0
    }
}

impl FromSpecImpl<GF<u8>> for u8 {
    open spec fn obeys_from_spec() -> bool {
        true
    }

    open spec fn from_spec(x: GF<u8>) -> Self {
        x.0
    }
}

impl Add for GF<u8> {
    type Output = GF<u8>;

    /// The sum: the bitwise XOR of the two bytes.
    fn add(self, other: GF<u8>) -> (r: GF<u8>) {
        GF(self.0 ^ other.0)
    }
}

impl AddSpecImpl for GF<u8> {
    open spec fn obeys_add_spec() -> bool {
        true
    }

    open spec fn add_req(self, other: GF<u8>) -> bool {
        true
    }

    open spec fn add_spec(self, other: GF<u8>) -> GF<u8> {
        GF(self.0 ^ other.0)
    }
}

impl Sub for GF<u8> {
    type Output = GF<u8>;

    /// The difference, which in characteristic 2 is the sum.
    fn sub(self, other: GF<u8>) -> (r: GF<u8>) {
        GF(self.0 ^ other.0)
    }
}

impl SubSpecImpl for GF<u8> {
    open spec fn obeys_sub_spec() -> bool {
        true
    }

    open spec fn sub_req(self, other: GF<u8>) -> bool {
        true
    }

    open spec fn sub_spec(self, other: GF<u8>) -> GF<u8> {
        GF(self.0 ^ other.0)
    }
}

impl Neg for GF<u8> {
    type Output = GF<u8>;

    /// The additive inverse: every element is its own.
    fn neg(self) -> (r: GF<u8>) {
        self
    }
}

impl NegSpecImpl for GF<u8> {
    open spec fn obeys_neg_spec() -> bool {
        true
    }

    open spec fn neg_req(self) -> bool {
        true
    }

    open spec fn neg_spec(self) -> GF<u8> {
        self
    }
}

impl Mul for GF<u8> {
    type Output = GF<u8>;

    /// The product.  A zero factor gives zero; otherwise the logarithms are
    /// added and the sum is looked up.
    fn mul(self, other: GF<u8>) -> (r: GF<u8>) {
        if self.0 == 0 || other.0 == 0 {
            proof {
                lemma_mul_unit_and_zero(self.0);
                lemma_mul_unit_and_zero(other.0);
            }
            GF(0)
        } else {
            proof {
                lemma_mul_by_logarithms(self.0, other.0);
            }
            GF(alog(log(self.0) + log(other.0)))
        }
    }
}

impl MulSpecImpl for GF<u8> {
    open spec fn obeys_mul_spec() -> bool {
        true
    }

    open spec fn mul_req(self, other: GF<u8>) -> bool {
        true
    }

    open spec fn mul_spec(self, other: GF<u8>) -> GF<u8> {
        GF(gf_mul(self.0, other.0))
    }
}

impl Div for GF<u8> {
    type Output = GF<u8>;

    /// The quotient, for a nonzero divisor.  The difference of the
    /// logarithms, moved up by one period so that it cannot be negative, is
    /// looked up.  A caller that cannot rule out a zero divisor uses
    /// `checked_div`.
    fn div(self, other: GF<u8>) -> (r: GF<u8>) {
        proof {
            lemma_div_by_logarithms(self.0, other.0);
        }
        GF(alog(log(self.0) + 255 - log(other.0)))
    }
}

impl DivSpecImpl for GF<u8> {
    open spec fn obeys_div_spec() -> bool {
        true
    }

    open spec fn div_req(self, other: GF<u8>) -> bool {
        other.0 != 0
    }

    open spec fn div_spec(self, other: GF<u8>) -> GF<u8> {
        GF(gf_div(self.0, other.0))
    }
}

impl GF<u8> {
    /// The quotient, or `None` for a zero divisor.
    pub fn checked_div(self, other: GF<u8>) -> (r: Option<GF<u8>>)
        ensures
            other.0 == 0 ==> r is None,
            other.0 != 0 ==> r == Some(GF(gf_div(self.0, other.0))),
    {
        if other.0 == 0 {
            None
        } else {
            Some(self / other)
        }
    }

    /// The multiplicative inverse, or `None` for zero, which has none.
    pub fn inv(self) -> (r: Option<GF<u8>>)
        ensures
            self.0 == 0 ==> r is None,
            self.0 != 0 ==> r == Some(GF(gf_inv(self.0))),
    {
        if self.0 == 0 {
            None
        } else {
            proof {
                lemma_inv_by_logarithms(self.0);
            }
            Some(GF(alog(255 - log(self.0) % 255)))
        }
    }

    /// `self` raised to the power `exp`; the power zero of any element, zero
    /// included, is one.  For a nonzero base the product of exponent and
    /// logarithm, reduced modulo 255, is looked up; the exponent is reduced
    /// first, so that the product cannot overflow.
    pub fn pow(self, exp: usize) -> (r: GF<u8>)
        ensures
            r.0 == gf_pow(self.0, exp as nat),
    {
        if self.0 == 0 {
            if exp == 0 {
                GF(1)
            } else {
                proof {
                    lemma_pow_of_zero(exp as nat);
                }
                GF(0)
            }
        } else {
            proof {
                lemma_pow_by_logarithms(self.0, exp as nat);
            }
            let reduced: usize = exp % 255;
            let l: usize = log(self.0);
            assert(reduced * l <= 254 * 254) by (nonlinear_arith)
                requires
                    reduced <= 254,
                    l <= 254,
            ;
            GF(alog((reduced * l) % 255))
        }
    }

    /// Replaces `self` by its square.
    pub fn square(&mut self)
        ensures
            final(self).0 == gf_mul(old(self).0, old(self).0),
    {
        *self = *self * *self;
    }

    /// `self` raised to the power `exp` by squaring and multiplying: eight
    /// rounds, one bit of the exponent in each, from the lowest up.  It uses
    /// nothing but `mul` and `square`, and gives what `pow` gives.
    pub fn pow_by_squaring(self, exp: u8) -> (r: GF<u8>)
        ensures
            r.0 == gf_pow(self.0, exp as nat),
    {
        let mut acc: GF<u8> = GF(1);
        let mut base: GF<u8> = self;
        let mut e: u8 = exp;
        let mut round: u8 = 0;
        proof {
            lemma_mul_unit_and_zero(gf_pow(self.0, exp as nat));
            assert(255u8 >> 0u8 == 255) by (bit_vector);
        }
        while round < 8
            invariant
                round <= 8,
                e <= 255u8 >> round,
                gf_mul(acc.0, gf_pow(base.0, e as nat)) == gf_pow(self.0, exp as nat),
            decreases 8 - round,
        {
            proof {
                lemma_pow_square_step(acc.0, base.0, e as nat);
                assert(e / 2 <= 255u8 >> ((round + 1) as u8)) by (bit_vector)
                    requires
                        round < 8,
                        e <= 255u8 >> round,
                ;
            }
            if e % 2 == 1 {
                acc = acc * base;
            }
            base.square();
            e = e / 2;
            round = round + 1;
        }
        proof {
            assert(255u8 >> 8u8 == 0) by (bit_vector);
            lemma_mul_unit_and_zero(acc.0);
        }
        acc
    }
}

} // verus!
