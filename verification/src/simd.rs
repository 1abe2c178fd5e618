//! The lane vector: a fixed number of field elements that are added,
//! multiplied, divided, inverted and raised to powers together, each lane by
//! itself and each as the scalar operation would do it.
use crate::algebra::{gf_div, gf_inv, gf_mul, gf_pow};
use crate::element::GF;
use crate::group::{lemma_div_by_logarithms, lemma_mul_by_logarithms};
use crate::tables::{alog, log};
use std::ops::{Add, Div, Mul, Sub};
use vstd::array::spec_array_update;
use vstd::prelude::*;
use vstd::std_specs::convert::FromSpecImpl;
use vstd::std_specs::ops::{AddSpecImpl, DivSpecImpl, MulSpecImpl, SubSpecImpl};

verus! {

/// `LANES` elements of GF(2^8), one to a lane.
pub type GF256Simd<const LANES: usize> = GF<[u8; LANES]>;

/// The XOR of all the bytes of `s`.
pub open spec fn xor_sum(s: Seq<u8>) -> u8
    decreases s.len(),
{
    if s.len() == 0 {
        0
    } else {
        xor_sum(s.drop_last()) ^ s.last()
    }
}

/// Whether every lane of `r` is `f` of the same lanes of `a` and `b`.
pub open spec fn is_lanewise<const LANES: usize>(
    r: [u8; LANES],
    a: [u8; LANES],
    b: [u8; LANES],
    f: spec_fn(u8, u8) -> u8,
) -> bool {
    forall|i: int| 0 <= i < LANES ==> r@[i] == f(a@[i], b@[i])
}

/// The vector whose every lane is `f` of the same lanes of `a` and `b`.
pub open spec fn lanewise<const LANES: usize>(
    a: [u8; LANES],
    b: [u8; LANES],
    f: spec_fn(u8, u8) -> u8,
) -> [u8; LANES] {
    choose|r: [u8; LANES]| is_lanewise(r, a, b, f)
}

/// There is a vector whose first `k` lanes are `f` of the same lanes of `a`
/// and `b`.
proof fn lemma_lanewise_prefix<const LANES: usize>(
    a: [u8; LANES],
    b: [u8; LANES],
    f: spec_fn(u8, u8) -> u8,
    k: nat,
) -> (r: [u8; LANES])
    requires
        k <= LANES,
    ensures
        forall|i: int| 0 <= i < k ==> r@[i] == f(a@[i], b@[i]),
    decreases k,
{
    if k == 0 {
        a
    } else {
        let shorter = lemma_lanewise_prefix(a, b, f, (k - 1) as nat);
        spec_array_update(shorter, k - 1, f(a@[k - 1], b@[k - 1]))
    }
}

/// Every lane of `lanewise(a, b, f)` is `f` of the same lanes of `a` and `b`.
pub proof fn lemma_lanewise_lanes<const LANES: usize>(
    a: [u8; LANES],
    b: [u8; LANES],
    f: spec_fn(u8, u8) -> u8,
)
    ensures
        is_lanewise(lanewise(a, b, f), a, b, f),
{
    let r = lemma_lanewise_prefix(a, b, f, LANES as nat);
    assert(is_lanewise(r, a, b, f));
}

/// A vector is `lanewise(a, b, f)` once each of its lanes is `f` of the same
/// lanes of `a` and `b`.
pub proof fn lemma_lanewise<const LANES: usize>(
    r: [u8; LANES],
    a: [u8; LANES],
    b: [u8; LANES],
    f: spec_fn(u8, u8) -> u8,
)
    requires
        is_lanewise(r, a, b, f),
    ensures
        r == lanewise(a, b, f),
{
    assert(r =~= lanewise(a, b, f));
}

/// Whether some byte of `s` is zero.
pub open spec fn has_zero(s: Seq<u8>) -> bool {
    exists|i: int| 0 <= i < s.len() && s[i] == 0
}

impl<const LANES: usize> From<[u8; LANES]> for GF256Simd<LANES> {
    fn from(v: [u8; LANES]) -> (r: Self) {
        GF(v)
    }
}

impl<const LANES: usize> FromSpecImpl<[u8; LANES]> for GF256Simd<LANES> {
    open spec fn obeys_from_spec() -> bool {
        true
    }

    open spec fn from_spec(v: [u8; LANES]) -> Self {
        GF(v)
    }
}

impl<const LANES: usize> From<GF256Simd<LANES>> for [u8; LANES] {
    fn from(v: GF256Simd<LANES>) -> (r: Self) {
        v.0
    }
}

impl<const LANES: usize> FromSpecImpl<GF256Simd<LANES>> for [u8; LANES] {
    open spec fn obeys_from_spec() -> bool {
        true
    }

    open spec fn from_spec(v: GF256Simd<LANES>) -> Self {
        v.0
    }
}

impl<const LANES: usize> GF256Simd<LANES> {
    /// The vector that holds `v` in every lane.
    pub fn splat(v: u8) -> (r: Self)
        ensures
            forall|i: int| 0 <= i < LANES ==> r.0@[i] == v,
    {
        GF([v;LANES])
    }

    /// The inverse of every lane, or `None` if some lane is zero.
    pub fn inv(self) -> (r: Option<Self>)
        ensures
            has_zero(self.0@) ==> r is None,
            !has_zero(self.0@) ==> (r matches Some(x) && forall|i: int|
                0 <= i < LANES ==> x.0@[i] == gf_inv(self.0@[i])),
    {
        let mut out: [u8; LANES] = [0;LANES];
        let mut i: usize = 0;
        while i < LANES
            invariant
                0 <= i <= LANES,
                forall|k: int| 0 <= k < i ==> self.0@[k] != 0,
                forall|k: int| 0 <= k < i ==> out@[k] == gf_inv(self.0@[k]),
            decreases LANES - i,
        {
            match GF(self.0[i]).inv() {
                None => {
                    return None;
                },
                Some(x) => {
                    out[i] = x.0;
                },
            }
            i += 1;
        }
        Some(GF(out))
    }

    /// Every lane raised to the power in the same lane of `exp`.
    pub fn pow(self, exp: [usize; LANES]) -> (r: Self)
        ensures
            forall|i: int| 0 <= i < LANES ==> r.0@[i] == gf_pow(self.0@[i], exp@[i] as nat),
    {
        let mut out: [u8; LANES] = [0;LANES];
        let mut i: usize = 0;
        while i < LANES
            invariant
                0 <= i <= LANES,
                forall|k: int| 0 <= k < i ==> out@[k] == gf_pow(self.0@[k], exp@[k] as nat),
            decreases LANES - i,
        {
            out[i] = GF(self.0[i]).pow(exp[i]).0;
            i += 1;
        }
        GF(out)
    }

    /// The sum of all the lanes.
    pub fn sum_lanes(self) -> (r: u8)
        ensures
            r == xor_sum(self.0@),
    {
        let mut acc: u8 = 0;
        let mut i: usize = 0;
        while i < LANES
            invariant
                0 <= i <= LANES,
                acc == xor_sum(self.0@.take(i as int)),
            decreases LANES - i,
        {
            assert(self.0@.take(i + 1).drop_last() =~= self.0@.take(i as int));
            acc = acc ^ self.0[i];
            i += 1;
        }
        assert(self.0@.take(LANES as int) =~= self.0@);
        acc
    }

    /// The quotient of every lane, or `None` if some lane of the divisor is
    /// zero.
    pub fn checked_div(self, other: Self) -> (r: Option<Self>)
        ensures
            has_zero(other.0@) ==> r is None,
            !has_zero(other.0@) ==> (r matches Some(x) && forall|i: int|
                0 <= i < LANES ==> x.0@[i] == gf_div(self.0@[i], other.0@[i])),
    {
        let mut i: usize = 0;
        while i < LANES
            invariant
                0 <= i <= LANES,
                forall|k: int| 0 <= k < i ==> other.0@[k] != 0,
            decreases LANES - i,
        {
            if other.0[i] == 0 {
                return None;
            }
            i += 1;
        }
        Some(self / other)
    }
}

impl<const LANES: usize> Add for GF256Simd<LANES> {
    type Output = GF256Simd<LANES>;

    /// The sum, lane by lane.
    fn add(self, rhs: Self) -> (r: Self)
        ensures
            forall|i: int| 0 <= i < LANES ==> r.0@[i] == self.0@[i] ^ rhs.0@[i],
    {
        let mut out: [u8; LANES] = [0;LANES];
        let mut i: usize = 0;
        while i < LANES
            invariant
                0 <= i <= LANES,
                forall|k: int| 0 <= k < i ==> out@[k] == self.0@[k] ^ rhs.0@[k],
            decreases LANES - i,
        {
            out[i] = self.0[i] ^ rhs.0[i];
            i += 1;
        }
        proof {
            lemma_lanewise(out, self.0, rhs.0, |x: u8, y: u8| x ^ y);
        }
        GF(out)
    }
}

impl<const LANES: usize> AddSpecImpl for GF256Simd<LANES> {
    open spec fn obeys_add_spec() -> bool {
        true
    }

    open spec fn add_req(self, rhs: Self) -> bool {
        true
    }

    open spec fn add_spec(self, rhs: Self) -> Self {
        GF(lanewise(self.0, rhs.0, |x: u8, y: u8| x ^ y))
    }
}

impl<const LANES: usize> Sub for GF256Simd<LANES> {
    type Output = GF256Simd<LANES>;

    /// The difference, lane by lane; it is the sum.
    fn sub(self, rhs: Self) -> (r: Self)
        ensures
            forall|i: int| 0 <= i < LANES ==> r.0@[i] == self.0@[i] ^ rhs.0@[i],
    {
        let mut out: [u8; LANES] = [0;LANES];
        let mut i: usize = 0;
        while i < LANES
            invariant
                0 <= i <= LANES,
                forall|k: int| 0 <= k < i ==> out@[k] == self.0@[k] ^ rhs.0@[k],
            decreases LANES - i,
        {
            out[i] = self.0[i] ^ rhs.0[i];
            i += 1;
        }
        proof {
            lemma_lanewise(out, self.0, rhs.0, |x: u8, y: u8| x ^ y);
        }
        GF(out)
    }
}

impl<const LANES: usize> SubSpecImpl for GF256Simd<LANES> {
    open spec fn obeys_sub_spec() -> bool {
        true
    }

    open spec fn sub_req(self, rhs: Self) -> bool {
        true
    }

    open spec fn sub_spec(self, rhs: Self) -> Self {
        GF(lanewise(self.0, rhs.0, |x: u8, y: u8| x ^ y))
    }
}

impl<const LANES: usize> Mul for GF256Simd<LANES> {
    type Output = GF256Simd<LANES>;

    /// The product, lane by lane.  No lane is tested for zero: the logarithm
    /// stored for zero sends the lookup to the zero-filled tail of the
    /// antilogarithm table.
    fn mul(self, rhs: Self) -> (r: Self)
        ensures
            forall|i: int| 0 <= i < LANES ==> r.0@[i] == gf_mul(self.0@[i], rhs.0@[i]),
    {
        let mut out: [u8; LANES] = [0;LANES];
        let mut i: usize = 0;
        while i < LANES
            invariant
                0 <= i <= LANES,
                forall|k: int| 0 <= k < i ==> out@[k] == gf_mul(self.0@[k], rhs.0@[k]),
            decreases LANES - i,
        {
            proof {
                lemma_mul_by_logarithms(self.0@[i as int], rhs.0@[i as int]);
            }
            out[i] = alog(log(self.0[i]) + log(rhs.0[i]));
            i += 1;
        }
        proof {
            lemma_lanewise(out, self.0, rhs.0, |x: u8, y: u8| gf_mul(x, y));
        }
        GF(out)
    }
}

impl<const LANES: usize> MulSpecImpl for GF256Simd<LANES> {
    open spec fn obeys_mul_spec() -> bool {
        true
    }

    open spec fn mul_req(self, rhs: Self) -> bool {
        true
    }

    open spec fn mul_spec(self, rhs: Self) -> Self {
        GF(lanewise(self.0, rhs.0, |x: u8, y: u8| gf_mul(x, y)))
    }
}

impl<const LANES: usize> Div for GF256Simd<LANES> {
    type Output = GF256Simd<LANES>;

    /// The quotient, lane by lane, for a divisor without a zero lane.  A
    /// caller that cannot rule out a zero lane uses `checked_div`.
    fn div(self, other: Self) -> (r: Self)
        ensures
            forall|i: int| 0 <= i < LANES ==> r.0@[i] == gf_div(self.0@[i], other.0@[i]),
    {
        let mut out: [u8; LANES] = [0;LANES];
        let mut i: usize = 0;
        while i < LANES
            invariant
                0 <= i <= LANES,
                !has_zero(other.0@),
                forall|k: int| 0 <= k < i ==> out@[k] == gf_div(self.0@[k], other.0@[k]),
            decreases LANES - i,
        {
            proof {
                assert(other.0@[i as int] != 0);
                lemma_div_by_logarithms(self.0@[i as int], other.0@[i as int]);
            }
            out[i] = alog(log(self.0[i]) + 255 - log(other.0[i]));
            i += 1;
        }
        proof {
            lemma_lanewise(out, self.0, other.0, |x: u8, y: u8| gf_div(x, y));
        }
        GF(out)
    }
}

impl<const LANES: usize> DivSpecImpl for GF256Simd<LANES> {
    open spec fn obeys_div_spec() -> bool {
        true
    }

    open spec fn div_req(self, other: Self) -> bool {
        !has_zero(other.0@)
    }

    open spec fn div_spec(self, other: Self) -> Self {
        GF(lanewise(self.0, other.0, |x: u8, y: u8| gf_div(x, y)))
    }
}

} // verus!
