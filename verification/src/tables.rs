//! The discrete logarithm and antilogarithm tables of GF(2^8) for the
//! generator 2 and the reduction polynomial `0x11D`, and the proof that they
//! are what they claim to be.
//!
//! The proof looks at every entry.  It does so in runs of at most 75 entries,
//! each run one unfolding of `holds_between`, which is as far as the solver
//! follows a recursive definition in one step.
//!
//! Only this module reasons with the 1281 literals in view.  The others see
//! the two tables through `log` and `alog`, whose contracts speak of powers
//! of the generator and not of entries.
use crate::algebra::{
    antilog, generator_power, lemma_xtime_arithmetic, logarithm, xtime, xtime_arithmetic,
    LOG_OF_ZERO,
};
use crate::gen_table::{
    consistent, generated_alog, generated_log, lemma_generated_alog, lemma_generated_log,
    REDUCTION_POLYNOMIAL,
};
use crate::group::{lemma_discrete_log_unique, lemma_generator_power_wraps};
use vstd::prelude::*;

verus! {

/// `LOGTABLE[v]` is the discrete logarithm of `v` to the base 2, for nonzero
/// `v`; `LOGTABLE[0]` is `LOG_OF_ZERO`.
pub const LOGTABLE: [usize; 256] = [
    512, 0, 1, 25, 2, 50, 26, 198, 3, 223, 51, 238, 27, 104, 199, 75, 4, 100, 224, 14, 52, 141,
    239, 129, 28, 193, 105, 248, 200, 8, 76, 113, 5, 138, 101, 47, 225, 36, 15, 33, 53, 147,
    142, 218, 240, 18, 130, 69, 29, 181, 194, 125, 106, 39, 249, 185, 201, 154, 9, 120, 77,
    228, 114, 166, 6, 191, 139, 98, 102, 221, 48, 253, 226, 152, 37, 179, 16, 145, 34, 136, 54,
    208, 148, 206, 143, 150, 219, 189, 241, 210, 19, 92, 131, 56, 70, 64, 30, 66, 182, 163,
    195, 72, 126, 110, 107, 58, 40, 84, 250, 133, 186, 61, 202, 94, 155, 159, 10, 21, 121, 43,
    78, 212, 229, 172, 115, 243, 167, 87, 7, 112, 192, 247, 140, 128, 99, 13, 103, 74, 222,
    237, 49, 197, 254, 24, 227, 165, 153, 119, 38, 184, 180, 124, 17, 68, 146, 217, 35, 32,
    137, 46, 55, 63, 209, 91, 149, 188, 207, 205, 144, 135, 151, 178, 220, 252, 190, 97, 242,
    86, 211, 171, 20, 42, 93, 158, 132, 60, 57, 83, 71, 109, 65, 162, 31, 45, 67, 216, 183,
    123, 164, 118, 196, 23, 73, 236, 127, 12, 111, 246, 108, 161, 59, 82, 41, 157, 85, 170,
    251, 96, 134, 177, 187, 204, 62, 90, 203, 89, 95, 176, 156, 169, 160, 81, 11, 245, 22, 235,
    122, 117, 44, 215, 79, 174, 213, 233, 230, 231, 173, 232, 116, 214, 244, 234, 168, 80, 88,
    175,
];

/// `ALOGTABLE[i]` is `2^i` for `i < 510` (two periods), and zero from 510 on.
pub const ALOGTABLE: [u8; 1025] = [
    1, 2, 4, 8, 16, 32, 64, 128, 29, 58, 116, 232, 205, 135, 19, 38, 76, 152, 45, 90, 180, 117,
    234, 201, 143, 3, 6, 12, 24, 48, 96, 192, 157, 39, 78, 156, 37, 74, 148, 53, 106, 212, 181,
    119, 238, 193, 159, 35, 70, 140, 5, 10, 20, 40, 80, 160, 93, 186, 105, 210, 185, 111, 222,
    161, 95, 190, 97, 194, 153, 47, 94, 188, 101, 202, 137, 15, 30, 60, 120, 240, 253, 231,
    211, 187, 107, 214, 177, 127, 254, 225, 223, 163, 91, 182, 113, 226, 217, 175, 67, 134, 17,
    34, 68, 136, 13, 26, 52, 104, 208, 189, 103, 206, 129, 31, 62, 124, 248, 237, 199, 147, 59,
    118, 236, 197, 151, 51, 102, 204, 133, 23, 46, 92, 184, 109, 218, 169, 79, 158, 33, 66,
    132, 21, 42, 84, 168, 77, 154, 41, 82, 164, 85, 170, 73, 146, 57, 114, 228, 213, 183, 115,
    230, 209, 191, 99, 198, 145, 63, 126, 252, 229, 215, 179, 123, 246, 241, 255, 227, 219,
    171, 75, 150, 49, 98, 196, 149, 55, 110, 220, 165, 87, 174, 65, 130, 25, 50, 100, 200, 141,
    7, 14, 28, 56, 112, 224, 221, 167, 83, 166, 81, 162, 89, 178, 121, 242, 249, 239, 195, 155,
    43, 86, 172, 69, 138, 9, 18, 36, 72, 144, 61, 122, 244, 245, 247, 243, 251, 235, 203, 139,
    11, 22, 44, 88, 176, 125, 250, 233, 207, 131, 27, 54, 108, 216, 173, 71, 142, 1, 2, 4, 8,
    16, 32, 64, 128, 29, 58, 116, 232, 205, 135, 19, 38, 76, 152, 45, 90, 180, 117, 234, 201,
    143, 3, 6, 12, 24, 48, 96, 192, 157, 39, 78, 156, 37, 74, 148, 53, 106, 212, 181, 119, 238,
    193, 159, 35, 70, 140, 5, 10, 20, 40, 80, 160, 93, 186, 105, 210, 185, 111, 222, 161, 95,
    190, 97, 194, 153, 47, 94, 188, 101, 202, 137, 15, 30, 60, 120, 240, 253, 231, 211, 187,
    107, 214, 177, 127, 254, 225, 223, 163, 91, 182, 113, 226, 217, 175, 67, 134, 17, 34, 68,
    136, 13, 26, 52, 104, 208, 189, 103, 206, 129, 31, 62, 124, 248, 237, 199, 147, 59, 118,
    236, 197, 151, 51, 102, 204, 133, 23, 46, 92, 184, 109, 218, 169, 79, 158, 33, 66, 132, 21,
    42, 84, 168, 77, 154, 41, 82, 164, 85, 170, 73, 146, 57, 114, 228, 213, 183, 115, 230, 209,
    191, 99, 198, 145, 63, 126, 252, 229, 215, 179, 123, 246, 241, 255, 227, 219, 171, 75, 150,
    49, 98, 196, 149, 55, 110, 220, 165, 87, 174, 65, 130, 25, 50, 100, 200, 141, 7, 14, 28,
    56, 112, 224, 221, 167, 83, 166, 81, 162, 89, 178, 121, 242, 249, 239, 195, 155, 43, 86,
    172, 69, 138, 9, 18, 36, 72, 144, 61, 122, 244, 245, 247, 243, 251, 235, 203, 139, 11, 22,
    44, 88, 176, 125, 250, 233, 207, 131, 27, 54, 108, 216, 173, 71, 142, 0, 0, 0, 0, 0, 0, 0,
    0, 0, 0, 0, 0, 0, 0, 0, 0, 0, 0, 0, 0, 0, 0, 0, 0, 0, 0, 0, 0, 0, 0, 0, 0, 0, 0, 0, 0, 0,
    0, 0, 0, 0, 0, 0, 0, 0, 0, 0, 0, 0, 0, 0, 0, 0, 0, 0, 0, 0, 0, 0, 0, 0, 0, 0, 0, 0, 0, 0,
    0, 0, 0, 0, 0, 0, 0, 0, 0, 0, 0, 0, 0, 0, 0, 0, 0, 0, 0, 0, 0, 0, 0, 0, 0, 0, 0, 0, 0, 0,
    0, 0, 0, 0, 0, 0, 0, 0, 0, 0, 0, 0, 0, 0, 0, 0, 0, 0, 0, 0, 0, 0, 0, 0, 0, 0, 0, 0, 0, 0,
    0, 0, 0, 0, 0, 0, 0, 0, 0, 0, 0, 0, 0, 0, 0, 0, 0, 0, 0, 0, 0, 0, 0, 0, 0, 0, 0, 0, 0, 0,
    0, 0, 0, 0, 0, 0, 0, 0, 0, 0, 0, 0, 0, 0, 0, 0, 0, 0, 0, 0, 0, 0, 0, 0, 0, 0, 0, 0, 0, 0,
    0, 0, 0, 0, 0, 0, 0, 0, 0, 0, 0, 0, 0, 0, 0, 0, 0, 0, 0, 0, 0, 0, 0, 0, 0, 0, 0, 0, 0, 0,
    0, 0, 0, 0, 0, 0, 0, 0, 0, 0, 0, 0, 0, 0, 0, 0, 0, 0, 0, 0, 0, 0, 0, 0, 0, 0, 0, 0, 0, 0,
    0, 0, 0, 0, 0, 0, 0, 0, 0, 0, 0, 0, 0, 0, 0, 0, 0, 0, 0, 0, 0, 0, 0, 0, 0, 0, 0, 0, 0, 0,
    0, 0, 0, 0, 0, 0, 0, 0, 0, 0, 0, 0, 0, 0, 0, 0, 0, 0, 0, 0, 0, 0, 0, 0, 0, 0, 0, 0, 0, 0,
    0, 0, 0, 0, 0, 0, 0, 0, 0, 0, 0, 0, 0, 0, 0, 0, 0, 0, 0, 0, 0, 0, 0, 0, 0, 0, 0, 0, 0, 0,
    0, 0, 0, 0, 0, 0, 0, 0, 0, 0, 0, 0, 0, 0, 0, 0, 0, 0, 0, 0, 0, 0, 0, 0, 0, 0, 0, 0, 0, 0,
    0, 0, 0, 0, 0, 0, 0, 0, 0, 0, 0, 0, 0, 0, 0, 0, 0, 0, 0, 0, 0, 0, 0, 0, 0, 0, 0, 0, 0, 0,
    0, 0, 0, 0, 0, 0, 0, 0, 0, 0, 0, 0, 0, 0, 0, 0, 0, 0, 0, 0, 0, 0, 0, 0, 0, 0, 0, 0, 0, 0,
    0, 0, 0, 0, 0, 0, 0, 0, 0, 0, 0, 0, 0, 0, 0, 0, 0, 0, 0, 0, 0, 0, 0, 0, 0, 0, 0, 0, 0, 0,
    0, 0, 0, 0, 0, 0, 0, 0, 0, 0, 0, 0, 0, 0, 0, 0, 0, 0, 0, 0, 0, 0, 0, 0, 0, 0, 0, 0, 0, 0,
    0, 0, 0, 0, 0, 0, 0, 0, 0, 0, 0, 0, 0, 0, 0, 0, 0, 0, 0, 0, 0, 0, 0, 0, 0, 0, 0, 0,
];

/// Entry `i` of the antilogarithm table.
pub closed spec fn alog_entry(i: int) -> u8 {
    ALOGTABLE[i]
}

/// Entry `v` of the logarithm table.
pub closed spec fn log_entry(v: u8) -> usize {
    LOGTABLE[v as int]
}

/// `p` holds of every integer from `lo` up to, but not including, `hi`.
spec fn holds_between(p: spec_fn(int) -> bool, lo: int, hi: int) -> bool
    decreases hi - lo,
{
    if lo >= hi {
        true
    } else {
        p(hi - 1) && holds_between(p, lo, hi - 1)
    }
}

proof fn lemma_holds_at(p: spec_fn(int) -> bool, lo: int, hi: int, k: int)
    requires
        holds_between(p, lo, hi),
        lo <= k < hi,
    ensures
        p(k),
    decreases hi - lo,
{
    if k < hi - 1 {
        lemma_holds_at(p, lo, hi - 1, k);
    }
}

/// What makes entry `i` of the first period right: the next entry is its
/// double, the second period repeats it, and the logarithm table leads back
/// to `i` from the value found, and to the value `i` from its logarithm.
spec fn entry_ok(i: int) -> bool {
    &&& ALOGTABLE[i] != 0
    &&& xtime(ALOGTABLE[i]) == ALOGTABLE[i + 1]
    &&& ALOGTABLE[i + 255] == ALOGTABLE[i]
    &&& LOGTABLE[ALOGTABLE[i] as int] == i
    &&& i != 0 ==> LOGTABLE[i] < 255 && ALOGTABLE[LOGTABLE[i] as int] == i
}

/// Entry `i` of the tail is zero.
spec fn tail_ok(i: int) -> bool {
    ALOGTABLE[i] == 0
}

spec fn first_period() -> spec_fn(int) -> bool {
    |i: int| entry_ok(i)
}

spec fn tail() -> spec_fn(int) -> bool {
    |i: int| tail_ok(i)
}

proof fn lemma_first_period_a()
    ensures
        holds_between(first_period(), 0, 64),
{
    assert forall|a: u8| #[trigger] xtime(a) == xtime_arithmetic(a) by {
        lemma_xtime_arithmetic(a);
    }
    reveal_with_fuel(holds_between, 65);
}

proof fn lemma_first_period_b()
    ensures
        holds_between(first_period(), 64, 128),
{
    assert forall|a: u8| #[trigger] xtime(a) == xtime_arithmetic(a) by {
        lemma_xtime_arithmetic(a);
    }
    reveal_with_fuel(holds_between, 65);
}

proof fn lemma_first_period_c()
    ensures
        holds_between(first_period(), 128, 192),
{
    assert forall|a: u8| #[trigger] xtime(a) == xtime_arithmetic(a) by {
        lemma_xtime_arithmetic(a);
    }
    reveal_with_fuel(holds_between, 65);
}

proof fn lemma_first_period_d()
    ensures
        holds_between(first_period(), 192, 255),
{
    assert forall|a: u8| #[trigger] xtime(a) == xtime_arithmetic(a) by {
        lemma_xtime_arithmetic(a);
    }
    reveal_with_fuel(holds_between, 64);
}

proof fn lemma_tail_a()
    ensures
        holds_between(tail(), 510, 585),
{
    reveal_with_fuel(holds_between, 76);
}

proof fn lemma_tail_b()
    ensures
        holds_between(tail(), 585, 660),
{
    reveal_with_fuel(holds_between, 76);
}

proof fn lemma_tail_c()
    ensures
        holds_between(tail(), 660, 735),
{
    reveal_with_fuel(holds_between, 76);
}

proof fn lemma_tail_d()
    ensures
        holds_between(tail(), 735, 810),
{
    reveal_with_fuel(holds_between, 76);
}

proof fn lemma_tail_e()
    ensures
        holds_between(tail(), 810, 885),
{
    reveal_with_fuel(holds_between, 76);
}

proof fn lemma_tail_f()
    ensures
        holds_between(tail(), 885, 960),
{
    reveal_with_fuel(holds_between, 76);
}

proof fn lemma_tail_g()
    ensures
        holds_between(tail(), 960, 1025),
{
    reveal_with_fuel(holds_between, 66);
}

/// Every entry of the first period is right.
proof fn lemma_entry_ok(i: int)
    requires
        0 <= i < 255,
    ensures
        entry_ok(i),
{
    let p = first_period();
    if i < 64 {
        lemma_first_period_a();
        lemma_holds_at(p, 0, 64, i);
    } else if i < 128 {
        lemma_first_period_b();
        lemma_holds_at(p, 64, 128, i);
    } else if i < 192 {
        lemma_first_period_c();
        lemma_holds_at(p, 128, 192, i);
    } else {
        lemma_first_period_d();
        lemma_holds_at(p, 192, 255, i);
    }
}

/// Every entry from 510 on is zero.
proof fn lemma_tail_is_zero(i: int)
    requires
        510 <= i < 1025,
    ensures
        ALOGTABLE[i] == 0,
{
    let p = tail();
    if i < 585 {
        lemma_tail_a();
        lemma_holds_at(p, 510, 585, i);
    } else if i < 660 {
        lemma_tail_b();
        lemma_holds_at(p, 585, 660, i);
    } else if i < 735 {
        lemma_tail_c();
        lemma_holds_at(p, 660, 735, i);
    } else if i < 810 {
        lemma_tail_d();
        lemma_holds_at(p, 735, 810, i);
    } else if i < 885 {
        lemma_tail_e();
        lemma_holds_at(p, 810, 885, i);
    } else if i < 960 {
        lemma_tail_f();
        lemma_holds_at(p, 885, 960, i);
    } else {
        lemma_tail_g();
        lemma_holds_at(p, 960, 1025, i);
    }
    assert(tail_ok(i));
}

/// The first period of the antilogarithm table holds the powers of the
/// generator.
pub proof fn lemma_first_period_is_powers(i: nat)
    requires
        i < 255,
    ensures
        alog_entry(i as int) == generator_power(i),
    decreases i,
{
    if i > 0 {
        lemma_first_period_is_powers((i - 1) as nat);
        lemma_entry_ok(i - 1);
    }
}

/// The generator has order 255: its 255th power is one.
pub proof fn lemma_generator_order()
    ensures
        generator_power(255) == 1,
{
    lemma_first_period_is_powers(254);
    lemma_entry_ok(254);
    lemma_entry_ok(0);
}

/// The antilogarithm table holds two periods of the powers of the generator
/// and then zeros.
pub proof fn lemma_alog_entry(i: int)
    requires
        0 <= i < 1025,
    ensures
        alog_entry(i) == antilog(i),
{
    if i < 255 {
        lemma_first_period_is_powers(i as nat);
    } else if i < 510 {
        lemma_entry_ok(i - 255);
        lemma_first_period_is_powers((i - 255) as nat);
        lemma_generator_power_wraps((i - 255) as nat);
    } else {
        lemma_tail_is_zero(i);
    }
}

/// The logarithm table gives, for each nonzero byte, an exponent below 255
/// at which the generator reaches it.
pub proof fn lemma_log_entry(v: u8)
    requires
        v != 0,
    ensures
        log_entry(v) < 255,
        generator_power(log_entry(v) as nat) == v,
{
    if v < 255 {
        lemma_entry_ok(v as int);
    } else {
        assert(LOGTABLE[255] == 175);
        assert(ALOGTABLE[175] == 255);
    }
    lemma_first_period_is_powers(log_entry(v) as nat);
}

/// The logarithm table leads back from a power below 255 to its exponent,
/// so no two of these powers are equal, and none is zero.
pub proof fn lemma_log_of_power(i: nat)
    requires
        i < 255,
    ensures
        generator_power(i) != 0,
        log_entry(generator_power(i)) == i,
{
    lemma_entry_ok(i as int);
    lemma_first_period_is_powers(i);
}

/// The two tables are what the generator gives for the field's polynomial.
pub proof fn lemma_tables_are_generated()
    ensures
        LOGTABLE@ == generated_log(REDUCTION_POLYNOMIAL),
        ALOGTABLE@ == generated_alog(REDUCTION_POLYNOMIAL),
{
    assert forall|i: int| 0 <= i < 1025 implies ALOGTABLE@[i] == generated_alog(
        REDUCTION_POLYNOMIAL,
    )[i] by {
        lemma_generated_alog(i);
        lemma_alog_entry(i);
    }
    assert forall|v: int| 0 <= v < 256 implies LOGTABLE@[v] == generated_log(
        REDUCTION_POLYNOMIAL,
    )[v] by {
        lemma_generated_log(v as u8);
        if v != 0 {
            lemma_log_entry(v as u8);
            lemma_discrete_log_unique(v as u8, log_entry(v as u8) as nat);
        }
    }
    assert(LOGTABLE@ =~= generated_log(REDUCTION_POLYNOMIAL));
    assert(ALOGTABLE@ =~= generated_alog(REDUCTION_POLYNOMIAL));
}

/// The two tables are those of a field.
pub proof fn lemma_tables_are_consistent()
    ensures
        consistent(LOGTABLE@, ALOGTABLE@),
{
    assert forall|v: int| 1 <= v < 256 implies #[trigger] LOGTABLE@[v] < 255 && ALOGTABLE@[LOGTABLE@[v] as int]
        == v by {
        if v < 255 {
            lemma_entry_ok(v);
        } else {
            assert(LOGTABLE[255] == 175);
            assert(ALOGTABLE[175] == 255);
        }
    }
    assert forall|i: int| 0 <= i < 255 implies #[trigger] ALOGTABLE@[i] != 0 && LOGTABLE@[ALOGTABLE@[i] as int]
        == i by {
        lemma_entry_ok(i);
    }
    assert forall|i: int| 255 <= i < 510 implies #[trigger] ALOGTABLE@[i] == ALOGTABLE@[i - 255] by {
        lemma_entry_ok(i - 255);
    }
    assert forall|i: int| 510 <= i < 1025 implies #[trigger] ALOGTABLE@[i] == 0 by {
        lemma_tail_is_zero(i);
    }
}

/// Reads the logarithm table.
pub fn log(v: u8) -> (l: usize)
    ensures
        l == logarithm(v),
{
    proof {
        if v != 0 {
            lemma_log_entry(v);
            lemma_discrete_log_unique(v, log_entry(v) as nat);
        }
    }
    LOGTABLE[v as usize]
}

/// Reads the antilogarithm table.
pub fn alog(i: usize) -> (v: u8)
    requires
        i < 1025,
    ensures
        v == antilog(i as int),
{
    proof {
        lemma_alog_entry(i as int);
    }
    ALOGTABLE[i]
}

} // verus!
