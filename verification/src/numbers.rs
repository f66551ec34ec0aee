//! Exact rational rounding, the numeric core of every calculator.
//!
//! A quantity is a fraction `numer / denom`; rounding it to two decimals,
//! half away from zero, yields an integer count of hundredths.

use vstd::arithmetic::div_mod::{
    lemma_div_is_ordered, lemma_div_pos_is_pos, lemma_fundamental_div_mod,
    lemma_fundamental_div_mod_converse, lemma_mod_division_less_than_divisor,
};
use vstd::prelude::*;

verus! {

/// Largest magnitude the rounding helpers accept, comfortably clear of
/// `i64` overflow in `2 * numer + denom`.
pub const RATIO_LIMIT: i64 = 100_000_000_000_000_000;

/// Largest hour-valued quantity the calculators accept, in hundredths of
/// an hour (ten thousand hours): a machine limit that keeps every
/// intermediate product within `i64`.
pub const HOURS_LIMIT: i64 = 1_000_000;

/// `numer / denom` rounded to the nearest integer, half away from zero.
/// `denom` must be positive.
pub open spec fn spec_round_ratio(numer: int, denom: int) -> int
    recommends
        denom >= 1,
{
    if numer >= 0 {
        (2 * numer + denom) / (2 * denom)
    } else {
        -((2 * (-numer) + denom) / (2 * denom))
    }
}

/// Hundredths of `numer / denom` rounded to two decimals, half away from
/// zero: the integer model of rounding a fraction at two decimal places.
pub open spec fn spec_round2(numer: int, denom: int) -> int
    recommends
        denom >= 1,
{
    spec_round_ratio(100 * numer, denom)
}

/// `numer / denom` rounded to the nearest integer, half away from zero.
pub fn round_ratio(numer: i64, denom: i64) -> (r: i64)
    requires
        1 <= denom <= RATIO_LIMIT,
        -RATIO_LIMIT <= numer <= RATIO_LIMIT,
    ensures
        r == spec_round_ratio(numer as int, denom as int),
{
    if numer >= 0 {
        let n: u64 = (2 * numer + denom) as u64;
        let d: u64 = (2 * denom) as u64;
        (n / d) as i64
    } else {
        let n: u64 = (2 * (-numer) + denom) as u64;
        let d: u64 = (2 * denom) as u64;
        -((n / d) as i64)
    }
}

/// Hundredths of `numer / denom` rounded to two decimals, half away from
/// zero.
pub fn round2_ratio(numer: i64, denom: i64) -> (r: i64)
    requires
        1 <= denom <= RATIO_LIMIT,
        -RATIO_LIMIT <= 100 * numer <= RATIO_LIMIT,
    ensures
        r == spec_round2(numer as int, denom as int),
{
    round_ratio(100 * numer, denom)
}

/// `numer / denom` rounded to the nearest integer, half away from zero,
/// for any non-zero `denom`.
pub open spec fn spec_round_ratio_signed(numer: int, denom: int) -> int
    recommends
        denom != 0,
{
    if denom >= 1 {
        spec_round_ratio(numer, denom)
    } else {
        spec_round_ratio(-numer, -denom)
    }
}

/// `numer / denom` rounded to the nearest integer, half away from zero,
/// for any non-zero `denom`.
pub fn round_ratio_signed(numer: i64, denom: i64) -> (r: i64)
    requires
        denom != 0,
        -RATIO_LIMIT <= denom <= RATIO_LIMIT,
        -RATIO_LIMIT <= numer <= RATIO_LIMIT,
    ensures
        r == spec_round_ratio_signed(numer as int, denom as int),
{
    if denom >= 1 {
        round_ratio(numer, denom)
    } else {
        round_ratio(-numer, -denom)
    }
}

/// Floor of `numer / denom` for non-negative `numer` and positive `denom`.
pub fn div_floor(numer: i64, denom: i64) -> (r: i64)
    requires
        0 <= numer,
        1 <= denom,
    ensures
        r == numer as int / denom as int,
{
    ((numer as u64) / (denom as u64)) as i64
}

/// Remainder of `numer / denom` for non-negative `numer` and positive
/// `denom`.
pub fn mod_floor(numer: i64, denom: i64) -> (r: i64)
    requires
        0 <= numer,
        1 <= denom,
    ensures
        r == numer as int % denom as int,
{
    ((numer as u64) % (denom as u64)) as i64
}

/// Rounding a non-negative fraction with a denominator of at least one
/// stays between zero and the numerator.
pub proof fn lemma_round_ratio_nonneg_le(numer: int, denom: int)
    requires
        0 <= numer,
        1 <= denom,
    ensures
        0 <= spec_round_ratio(numer, denom) <= numer,
{
    lemma_div_pos_is_pos(2 * numer + denom, 2 * denom);
    assert(2 * numer + denom <= 2 * denom * numer + (2 * denom - 1)) by (nonlinear_arith)
        requires
            0 <= numer,
            1 <= denom,
    ;
    lemma_div_is_ordered(2 * numer + denom, 2 * denom * numer + (2 * denom - 1), 2 * denom);
    lemma_fundamental_div_mod_converse(
        2 * denom * numer + (2 * denom - 1),
        2 * denom,
        numer,
        2 * denom - 1,
    );
}

/// Rounding a non-negative fraction lands at most one above the floor of
/// the fraction.
pub proof fn lemma_round_ratio_upper(numer: int, denom: int)
    requires
        0 <= numer,
        1 <= denom,
    ensures
        spec_round_ratio(numer, denom) <= numer / denom + 1,
{
    lemma_fundamental_div_mod(numer, denom);
    lemma_mod_division_less_than_divisor(numer, denom);
    lemma_div_pos_is_pos(numer, denom);
    let d = numer / denom;
    assert(2 * numer + denom <= 2 * denom * (d + 1) + (2 * denom - 1)) by (nonlinear_arith)
        requires
            numer == denom * d + numer % denom,
            numer % denom < denom,
            1 <= denom,
    ;
    lemma_div_is_ordered(2 * numer + denom, 2 * denom * (d + 1) + (2 * denom - 1), 2 * denom);
    lemma_fundamental_div_mod_converse(
        2 * denom * (d + 1) + (2 * denom - 1),
        2 * denom,
        d + 1,
        2 * denom - 1,
    );
}

/// Rounding never grows the magnitude of a fraction with a denominator of
/// at least one.
pub proof fn lemma_round_ratio_magnitude(numer: int, denom: int)
    requires
        1 <= denom,
    ensures
        -(if numer >= 0 {
            numer
        } else {
            -numer
        }) <= spec_round_ratio(numer, denom) <= (if numer >= 0 {
            numer
        } else {
            -numer
        }),
{
    if numer >= 0 {
        lemma_round_ratio_nonneg_le(numer, denom);
    } else {
        lemma_round_ratio_nonneg_le(-numer, denom);
    }
}

/// Rounding with a signed denominator never grows the magnitude either.
pub proof fn lemma_round_ratio_signed_magnitude(numer: int, denom: int)
    requires
        denom != 0,
    ensures
        -(if numer >= 0 {
            numer
        } else {
            -numer
        }) <= spec_round_ratio_signed(numer, denom) <= (if numer >= 0 {
            numer
        } else {
            -numer
        }),
{
    if denom >= 1 {
        lemma_round_ratio_magnitude(numer, denom);
    } else {
        lemma_round_ratio_magnitude(-numer, -denom);
    }
}

/// The rounded fraction is bounded by the floor of `|numer| / denom` plus
/// one, on either side of zero.
pub proof fn lemma_round_ratio_div_bound(numer: int, denom: int)
    requires
        1 <= denom,
    ensures
        -((if numer >= 0 {
            numer
        } else {
            -numer
        }) / denom + 1) <= spec_round_ratio(numer, denom) <= (if numer >= 0 {
            numer
        } else {
            -numer
        }) / denom + 1,
{
    if numer >= 0 {
        lemma_round_ratio_nonneg_le(numer, denom);
        lemma_round_ratio_upper(numer, denom);
        lemma_div_pos_is_pos(numer, denom);
    } else {
        lemma_round_ratio_nonneg_le(-numer, denom);
        lemma_round_ratio_upper(-numer, denom);
        lemma_div_pos_is_pos(-numer, denom);
    }
}

/// The rounding really is to the nearest hundredth, half away from zero:
/// for a non-negative fraction, the chosen hundredth `n` keeps
/// `n/100 - numer/denom` within half a hundredth, and an exact half always
/// rounds up. Multiplying the error through by `200 * denom` states this
/// without division: `-denom <= 200 * numer - 2 * n * denom < denom`.
pub proof fn lemma_round2_nearest(numer: int, denom: int)
    requires
        0 <= numer,
        1 <= denom,
    ensures
        -denom <= 200 * numer - 2 * spec_round2(numer, denom) * denom < denom,
{
    let n = spec_round2(numer, denom);
    lemma_fundamental_div_mod(200 * numer + denom, 2 * denom);
    lemma_mod_division_less_than_divisor(200 * numer + denom, 2 * denom);
    assert(200 * numer + denom == 2 * denom * ((200 * numer + denom) / (2 * denom)) + (200 * numer
        + denom) % (2 * denom));
    assert(2 * denom * n == 2 * n * denom) by (nonlinear_arith);
}

/// Rounding a value that already sits on a hundredth leaves it unchanged.
pub proof fn lemma_round_whole_hundredths(v: int)
    ensures
        spec_round2(v, 100) == v,
{
    if v >= 0 {
        lemma_fundamental_div_mod_converse(200 * v + 100, 200, v, 100);
    } else {
        lemma_fundamental_div_mod_converse(200 * (-v) + 100, 200, -v, 100);
    }
}

/// Rounding to two decimals is idempotent: rounding the rounded value
/// changes nothing.
pub proof fn lemma_round2_idempotent(numer: int, denom: int)
    requires
        denom >= 1,
    ensures
        spec_round2(spec_round2(numer, denom), 100) == spec_round2(numer, denom),
{
    lemma_round_whole_hundredths(spec_round2(numer, denom));
}

/// Rounding is half away from zero, so it is symmetric about zero:
/// negating the input negates the result.
pub proof fn lemma_round2_symmetric(numer: int, denom: int)
    requires
        denom >= 1,
    ensures
        spec_round2(-numer, denom) == -spec_round2(numer, denom),
{
    if numer == 0 {
        lemma_fundamental_div_mod_converse(denom, 2 * denom, 0, denom);
    }
}

} // verus!
