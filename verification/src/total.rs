//! Resolution of the denominator of the angular partition: the value
//! that stands for the whole circle. Highest precedence is a requested
//! show-ratio (the series occupies only that fraction of the circle),
//! then an explicit total (guarded so it can never be smaller than the
//! natural sum, which would invert proportions), and otherwise the
//! natural sum of the normalized series itself.

use vstd::prelude::*;
use vstd::arithmetic::div_mod::{
    lemma_div_is_ordered,
    lemma_div_is_ordered_by_denominator,
    lemma_div_multiples_vanish,
    lemma_div_of0,
    lemma_div_pos_is_pos,
};
use vstd::arithmetic::mul::{lemma_mul_inequality, lemma_mul_nonnegative};
use crate::config::{MAX_SUM, RATIO_MAX, RATIO_MIN, SCALE};

verus! {

/// Saturation at the top of the `i64` range; the guard under which all
/// downstream angle arithmetic stays exact.
pub open spec fn sat64(x: int) -> int {
    if x > i64::MAX {
        i64::MAX as int
    } else {
        x
    }
}

/// A requested show-ratio clamped into `[RATIO_MIN, RATIO_MAX]`, that
/// is into `[0.0001, 1.0]`.
pub open spec fn clamp_ratio(r: int) -> int {
    if r < RATIO_MIN {
        RATIO_MIN as int
    } else if r > RATIO_MAX {
        RATIO_MAX as int
    } else {
        r
    }
}

/// The resolved total. `nsum` is the sum of the normalized series,
/// `rsum` the sum of the raw series. A non-positive raw sum makes the
/// explicit-total scaling meaningless (the quotient would be negative
/// or undefined), so the natural sum is used instead.
pub open spec fn total_spec(nsum: int, rsum: int, total: Option<i64>, show_ratio: Option<i64>) -> int {
    match show_ratio {
        Some(r) => sat64((nsum * SCALE) / clamp_ratio(r as int)),
        None => match total {
            Some(t) => if rsum <= 0 {
                nsum
            } else {
                let scaled = (nsum * t) / rsum;
                if scaled > nsum {
                    sat64(scaled)
                } else {
                    nsum
                }
            },
            None => nsum,
        },
    }
}

/// The resolved total is never smaller than the normalized sum: the
/// partial sums of the series can never overrun the circle.
pub proof fn lemma_total_ge_sum(nsum: int, rsum: int, total: Option<i64>, show_ratio: Option<i64>)
    requires
        0 <= nsum <= MAX_SUM,
    ensures
        total_spec(nsum, rsum, total, show_ratio) >= nsum,
{
    match show_ratio {
        Some(r) => {
            let rc = clamp_ratio(r as int);
            lemma_mul_nonnegative(nsum, SCALE as int);
            lemma_div_is_ordered_by_denominator(nsum * SCALE, rc, SCALE as int);
            lemma_div_multiples_vanish(nsum, SCALE as int);
            assert(nsum * SCALE == SCALE * nsum) by (nonlinear_arith);
        },
        None => {},
    }
}

/// The resolved total is positive as soon as the normalized sum is:
/// with at least one positive entry there is no division by zero
/// anywhere in the angle walk.
pub proof fn lemma_total_pos(nsum: int, rsum: int, total: Option<i64>, show_ratio: Option<i64>)
    requires
        0 < nsum <= MAX_SUM,
    ensures
        total_spec(nsum, rsum, total, show_ratio) > 0,
{
    lemma_total_ge_sum(nsum, rsum, total, show_ratio);
}

/// With a normalized sum of zero (no positive entry) every policy
/// resolves the total to zero: the degenerate chart draws nothing.
pub proof fn lemma_total_zero(nsum: int, rsum: int, total: Option<i64>, show_ratio: Option<i64>)
    requires
        nsum == 0,
    ensures
        total_spec(nsum, rsum, total, show_ratio) == 0,
{
    match show_ratio {
        Some(r) => {
            lemma_div_of0(clamp_ratio(r as int));
        },
        None => match total {
            Some(t) => {
                if rsum > 0 {
                    lemma_div_of0(rsum);
                }
            },
            None => {},
        },
    }
}

/// Ratio monotonicity law: raising the show-ratio towards `1.0` never
/// raises the resolved total — the same data is spread over more of
/// the circle. (Strict decrease cannot hold in general: with a
/// normalized sum of `1`, ratios `0.9999` and `1.0` both resolve to a
/// total of `1` after rounding.)
pub proof fn lemma_ratio_monotone(nsum: int, rsum: int, total: Option<i64>, r1: i64, r2: i64)
    requires
        0 <= nsum,
        r1 <= r2,
    ensures
        total_spec(nsum, rsum, total, Some(r1)) >= total_spec(nsum, rsum, total, Some(r2)),
{
    let c1 = clamp_ratio(r1 as int);
    let c2 = clamp_ratio(r2 as int);
    lemma_mul_nonnegative(nsum, SCALE as int);
    lemma_div_is_ordered_by_denominator(nsum * SCALE, c1, c2);
}

/// Resolve the denominator of the angular partition from the two sums
/// and the overrides, exactly as `total_spec` states, within `i64` by
/// saturation.
pub fn resolve_total(nsum: i64, rsum: i64, total: Option<i64>, show_ratio: Option<i64>) -> (r: i64)
    requires
        0 <= nsum <= MAX_SUM,
        -MAX_SUM <= rsum <= MAX_SUM,
        total matches Some(t) ==> -MAX_SUM <= t <= MAX_SUM,
    ensures
        r as int == total_spec(nsum as int, rsum as int, total, show_ratio),
        nsum <= r,
{
    proof {
        lemma_total_ge_sum(nsum as int, rsum as int, total, show_ratio);
    }
    match show_ratio {
        Some(r0) => {
            let rc: i64 = if r0 < RATIO_MIN {
                RATIO_MIN
            } else if r0 > RATIO_MAX {
                RATIO_MAX
            } else {
                r0
            };
            let prod: u128 = (nsum as u128) * (SCALE as u128);
            let q: u128 = prod / (rc as u128);
            if q > i64::MAX as u128 {
                i64::MAX
            } else {
                q as i64
            }
        },
        None => match total {
            Some(t) => {
                if rsum <= 0 {
                    nsum
                } else if t <= 0 {
                    proof {
                        lemma_mul_inequality(t as int, 0, nsum as int);
                        assert(nsum as int * t as int == t as int * nsum as int) by (nonlinear_arith);
                        lemma_div_is_ordered(nsum as int * t as int, 0, rsum as int);
                        lemma_div_of0(rsum as int);
                    }
                    nsum
                } else {
                    proof {
                        assert((nsum as int) * (t as int) <= MAX_SUM * MAX_SUM) by (nonlinear_arith)
                            requires
                                0 <= nsum as int <= MAX_SUM,
                                0 < t as int <= MAX_SUM,
                        ;
                    }
                    let prod: u128 = (nsum as u128) * (t as u128);
                    let q: u128 = prod / (rsum as u128);
                    if q > nsum as u128 {
                        if q > i64::MAX as u128 {
                            i64::MAX
                        } else {
                            q as i64
                        }
                    } else {
                        proof {
                            lemma_mul_nonnegative(nsum as int, t as int);
                            lemma_div_pos_is_pos(nsum as int * t as int, rsum as int);
                        }
                        nsum
                    }
                }
            },
            None => nsum,
        },
    }
}

} // verus!
