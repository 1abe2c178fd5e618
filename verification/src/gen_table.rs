//! Generation of the logarithm and antilogarithm tables by walking the
//! powers of the generator 2 under a given reduction polynomial.
use crate::algebra::{antilog, discrete_log, generator_power, logarithm, xtime, LOG_OF_ZERO};
use crate::group::{lemma_discrete_log, lemma_discrete_log_unique, lemma_generator_power_nonzero};
use vstd::prelude::*;

verus! {

/// The reduction polynomial of the field: `x^8 + x^4 + x^3 + x^2 + 1`.
pub const REDUCTION_POLYNOMIAL: usize = 0x11d;

/// Twice `prev`, reduced by `genpoly` where it no longer fits in a byte.
pub open spec fn doubled_and_reduced(prev: u8, genpoly: usize) -> u8 {
    let doubled = (2 * prev) as usize;
    if doubled >= 256 {
        (doubled ^ genpoly) as u8
    } else {
        doubled as u8
    }
}

/// The `i`-th element of the walk that starts at one and doubles and reduces
/// at each step.
pub open spec fn walk(genpoly: usize, i: nat) -> u8
    decreases i,
{
    if i == 0 {
        1
    } else {
        doubled_and_reduced(walk(genpoly, (i - 1) as nat), genpoly)
    }
}

/// The last index from `n` down to 1 at which the walk stands on `v`; if
/// there is none, the value that the table starts with: `LOG_OF_ZERO` for
/// zero, and zero for every other byte.
pub open spec fn last_exponent(genpoly: usize, v: int, n: nat) -> usize
    decreases n,
{
    if n == 0 {
        if v == 0 {
            LOG_OF_ZERO
        } else {
            0
        }
    } else if walk(genpoly, n) == v {
        n as usize
    } else {
        last_exponent(genpoly, v, (n - 1) as nat)
    }
}

/// The antilogarithm table that `genpoly` generates: the first 255 elements
/// of the walk, the same once more, and zeros from 510 on.
pub open spec fn generated_alog(genpoly: usize) -> Seq<u8> {
    Seq::new(
        1025,
        |i: int|
            if i < 255 {
                walk(genpoly, i as nat)
            } else if i < 510 {
                walk(genpoly, (i - 255) as nat)
            } else {
                0
            },
    )
}

/// The logarithm table that `genpoly` generates.
pub open spec fn generated_log(genpoly: usize) -> Seq<usize> {
    Seq::new(256, |v: int| last_exponent(genpoly, v, 254))
}

/// Generates the logarithm table and the antilogarithm table for the
/// generator 2 and the reduction polynomial `genpoly`.
///
/// The result is a function of `genpoly` alone.  Whether the tables are those
/// of a field depends on `genpoly`, and is not looked into here: see
/// `tables_are_consistent`.
pub fn gen_tables_u8(genpoly: usize) -> (tables: ([usize; 256], [u8; 1025]))
    ensures
        tables.0@ == generated_log(genpoly),
        tables.1@ == generated_alog(genpoly),
{
    let mut logtable: [usize; 256] = [0;256];
    let mut alogtable: [u8; 1025] = [0;1025];

    logtable[0] = LOG_OF_ZERO;
    alogtable[0] = 1;

    let mut i: usize = 1;
    while i < 255
        invariant
            1 <= i <= 255,
            forall|k: int| 0 <= k < i ==> alogtable@[k] == walk(genpoly, k as nat),
            forall|k: int| i <= k < 1025 ==> alogtable@[k] == 0,
            forall|v: int| 0 <= v < 256 ==> logtable@[v] == last_exponent(genpoly, v, (i - 1) as nat),
        decreases 255 - i,
    {
        let doubled: usize = (alogtable[i - 1] as usize) * 2;
        let next: u8 = if doubled >= 256 {
            #[verifier::truncate]
            ((doubled ^ genpoly) as u8)
        } else {
            doubled as u8
        };
        alogtable[i] = next;
        logtable[next as usize] = i;
        i += 1;
    }

    let mut i: usize = 255;
    while i < 510
        invariant
            255 <= i <= 510,
            forall|k: int| 0 <= k < 255 ==> alogtable@[k] == walk(genpoly, k as nat),
            forall|k: int| 255 <= k < i ==> alogtable@[k] == walk(genpoly, (k - 255) as nat),
            forall|k: int| i <= k < 1025 ==> alogtable@[k] == 0,
        decreases 510 - i,
    {
        alogtable[i] = alogtable[i - 255];
        i += 1;
    }

    assert(logtable@ =~= generated_log(genpoly));
    assert(alogtable@ =~= generated_alog(genpoly));
    (logtable, alogtable)
}

/// Generation is deterministic: whatever two runs on the same polynomial
/// return is the same, entry for entry.
pub proof fn law_generation_is_deterministic(
    genpoly: usize,
    first: ([usize; 256], [u8; 1025]),
    second: ([usize; 256], [u8; 1025]),
)
    requires
        first.0@ == generated_log(genpoly),
        first.1@ == generated_alog(genpoly),
        second.0@ == generated_log(genpoly),
        second.1@ == generated_alog(genpoly),
    ensures
        first == second,
{
    assert(first.0 =~= second.0);
    assert(first.1 =~= second.1);
}

/// What the two tables of a field have to satisfy.  The logarithm of every
/// nonzero byte is an index below 255 at which the antilogarithm table holds
/// that byte; the first 255 antilogarithms are nonzero and the logarithm
/// table leads back from each to its index, so that every nonzero byte
/// appears among them exactly once; the next 255 entries repeat them; all
/// that follows is zero; and the logarithm table holds `LOG_OF_ZERO` for
/// zero.
pub open spec fn consistent(log: Seq<usize>, alog: Seq<u8>) -> bool {
    &&& log.len() == 256
    &&& alog.len() == 1025
    &&& log[0] == LOG_OF_ZERO
    &&& forall|v: int| 1 <= v < 256 ==> #[trigger] log[v] < 255 && alog[log[v] as int] == v
    &&& forall|i: int| 0 <= i < 255 ==> #[trigger] alog[i] != 0 && log[alog[i] as int] == i
    &&& forall|i: int| 255 <= i < 510 ==> #[trigger] alog[i] == alog[i - 255]
    &&& forall|i: int| 510 <= i < 1025 ==> #[trigger] alog[i] == 0
}

/// Whether the two tables are those of a field: the check to run on tables
/// generated from a polynomial that is not known to be primitive.
pub fn tables_are_consistent(log: &[usize; 256], alog: &[u8; 1025]) -> (ok: bool)
    ensures
        ok == consistent(log@, alog@),
{
    if log[0] != LOG_OF_ZERO {
        return false;
    }
    let mut v: usize = 1;
    while v < 256
        invariant
            1 <= v <= 256,
            forall|w: int| 1 <= w < v ==> #[trigger] log@[w] < 255 && alog@[log@[w] as int] == w,
        decreases 256 - v,
    {
        let l = log[v];
        if l >= 255 || alog[l] as usize != v {
            return false;
        }
        v += 1;
    }
    let mut i: usize = 0;
    while i < 255
        invariant
            0 <= i <= 255,
            forall|k: int| 0 <= k < i ==> #[trigger] alog@[k] != 0 && log@[alog@[k] as int] == k,
        decreases 255 - i,
    {
        let a = alog[i];
        if a == 0 || log[a as usize] != i {
            return false;
        }
        i += 1;
    }
    let mut i: usize = 255;
    while i < 510
        invariant
            255 <= i <= 510,
            forall|k: int| 255 <= k < i ==> #[trigger] alog@[k] == alog@[k - 255],
        decreases 510 - i,
    {
        if alog[i] != alog[i - 255] {
            return false;
        }
        i += 1;
    }
    let mut i: usize = 510;
    while i < 1025
        invariant
            510 <= i <= 1025,
            forall|k: int| 510 <= k < i ==> #[trigger] alog@[k] == 0,
        decreases 1025 - i,
    {
        if alog[i] != 0 {
            return false;
        }
        i += 1;
    }
    true
}

/// Under the field's polynomial, to double and reduce is to multiply by `x`.
proof fn lemma_doubled_and_reduced(prev: u8)
    by (bit_vector)
    ensures
        doubled_and_reduced(prev, 0x11d) == xtime(prev),
{
}

/// Under the field's polynomial the walk goes through the powers of the
/// generator.
pub proof fn lemma_walk_is_generator_power(i: nat)
    ensures
        walk(REDUCTION_POLYNOMIAL, i) == generator_power(i),
    decreases i,
{
    if i > 0 {
        lemma_walk_is_generator_power((i - 1) as nat);
        lemma_doubled_and_reduced(generator_power((i - 1) as nat));
    }
}

/// Under the field's polynomial the generated antilogarithm table holds two
/// periods of the powers of the generator and then zeros.
pub proof fn lemma_generated_alog(i: int)
    requires
        0 <= i < 1025,
    ensures
        generated_alog(REDUCTION_POLYNOMIAL)[i] == antilog(i),
{
    if i < 255 {
        lemma_walk_is_generator_power(i as nat);
    } else if i < 510 {
        lemma_walk_is_generator_power((i - 255) as nat);
        crate::group::lemma_generator_power_wraps((i - 255) as nat);
    }
}

/// Under the field's polynomial the search for the last exponent finds the
/// discrete logarithm once it has come that far, and nothing before.
proof fn lemma_last_exponent(v: int, n: nat)
    requires
        0 <= v < 256,
        n < 255,
    ensures
        last_exponent(REDUCTION_POLYNOMIAL, v, n) == (if v == 0 {
            LOG_OF_ZERO as nat
        } else if discrete_log(v as u8) <= n {
            discrete_log(v as u8)
        } else {
            0
        }),
    decreases n,
{
    if v != 0 {
        lemma_discrete_log(v as u8);
    }
    if n > 0 {
        lemma_last_exponent(v, (n - 1) as nat);
        lemma_walk_is_generator_power(n);
        lemma_generator_power_nonzero(n);
        if generator_power(n) == v {
            lemma_discrete_log_unique(v as u8, n);
        }
    }
}

/// Under the field's polynomial the generated logarithm table holds the
/// discrete logarithm of every nonzero byte, and `LOG_OF_ZERO` for zero.
pub proof fn lemma_generated_log(v: u8)
    ensures
        generated_log(REDUCTION_POLYNOMIAL)[v as int] == logarithm(v),
{
    lemma_last_exponent(v as int, 254);
    if v != 0 {
        lemma_discrete_log(v);
    }
}

/// In the tables generated under the field's polynomial, the antilogarithm
/// of the logarithm of a nonzero byte is that byte.
pub proof fn law_generated_tables_invert(v: u8)
    requires
        v != 0,
    ensures
        generated_log(REDUCTION_POLYNOMIAL)[v as int] < 255,
        generated_alog(REDUCTION_POLYNOMIAL)[generated_log(REDUCTION_POLYNOMIAL)[v as int] as int]
            == v,
{
    lemma_generated_log(v);
    lemma_discrete_log(v);
    lemma_generated_alog(discrete_log(v) as int);
}

} // verus!
