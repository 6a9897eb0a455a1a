//! Series normalization: a pie chart is undefined for negative
//! magnitudes, so every entry below zero is clamped to zero (the
//! simplest common convention; zero stays zero), keeping length and
//! order. Sums of series are computed here as well.

use vstd::prelude::*;
use vstd::arithmetic::mul::{lemma_mul_inequality, lemma_mul_is_distributive_add_other_way};
use crate::config::{MAX_MAGNITUDE, MAX_SERIES_LEN, MAX_SUM};

verus! {

/// A negative magnitude contributes nothing to the circle.
pub open spec fn clamp_zero(v: int) -> int {
    if v < 0 {
        0
    } else {
        v
    }
}

/// A machine series read as a sequence of mathematical integers.
pub open spec fn int_seq(s: Seq<i64>) -> Seq<int> {
    Seq::new(s.len(), |j: int| s[j] as int)
}

/// The normalized view of a series: entrywise clamped to zero.
pub open spec fn norm_seq(s: Seq<i64>) -> Seq<int> {
    Seq::new(s.len(), |j: int| clamp_zero(s[j] as int))
}

/// The sum of a sequence of integers.
pub open spec fn seq_sum(s: Seq<int>) -> int
    decreases s.len(),
{
    if s.len() == 0 {
        0
    } else {
        seq_sum(s.drop_last()) + s.last()
    }
}

/// Extending a prefix by one entry adds that entry to its sum.
pub proof fn lemma_seq_sum_take_step(s: Seq<int>, j: int)
    requires
        0 <= j < s.len(),
    ensures
        seq_sum(s.take(j + 1)) == seq_sum(s.take(j)) + s[j],
{
    assert(s.take(j + 1).drop_last() =~= s.take(j));
    assert(s.take(j + 1).last() == s[j]);
}

/// The sum of the entries of `s` from position `i` on.
pub open spec fn seq_sum_from(s: Seq<int>, i: int) -> int
    decreases s.len() - i,
{
    if i < 0 || i >= s.len() {
        0
    } else {
        s[i] + seq_sum_from(s, i + 1)
    }
}

/// The suffix sum is the whole sum less the prefix sum.
pub proof fn lemma_seq_sum_from(s: Seq<int>, i: int)
    requires
        0 <= i <= s.len(),
    ensures
        seq_sum_from(s, i) == seq_sum(s) - seq_sum(s.take(i)),
    decreases s.len() - i,
{
    if i == s.len() {
        assert(s.take(i) =~= s);
    } else {
        lemma_seq_sum_take_step(s, i);
        lemma_seq_sum_from(s, i + 1);
    }
}

/// A sequence of non-negative entries has a non-negative sum.
pub proof fn lemma_seq_sum_nonneg(s: Seq<int>)
    requires
        forall|j: int| 0 <= j < s.len() ==> #[trigger] s[j] >= 0,
    ensures
        seq_sum(s) >= 0,
    decreases s.len(),
{
    if s.len() > 0 {
        lemma_seq_sum_nonneg(s.drop_last());
    }
}

/// A prefix of non-negative entries never sums to more than the whole.
pub proof fn lemma_seq_sum_take_le(s: Seq<int>, j: int)
    requires
        forall|k: int| 0 <= k < s.len() ==> #[trigger] s[k] >= 0,
        0 <= j <= s.len(),
    ensures
        0 <= seq_sum(s.take(j)) <= seq_sum(s),
    decreases s.len() - j,
{
    assert(forall|k: int| 0 <= k < j ==> #[trigger] s.take(j)[k] >= 0);
    lemma_seq_sum_nonneg(s.take(j));
    if j == s.len() {
        assert(s.take(j) =~= s);
    } else {
        lemma_seq_sum_take_step(s, j);
        lemma_seq_sum_take_le(s, j + 1);
    }
}

/// Clamp every entry of the series to zero from below; the result has
/// the same length and order, and is entrywise `clamp_zero` of the
/// input. Pure: the input is not touched.
pub fn normalize_series(series: &Vec<i64>) -> (r: Vec<i64>)
    ensures
        r@.len() == series@.len(),
        forall|j: int| 0 <= j < r@.len() ==> r@[j] as int == #[trigger] norm_seq(series@)[j],
        int_seq(r@) == norm_seq(series@),
{
    let n = series.len();
    let mut r: Vec<i64> = Vec::new();
    let mut i: usize = 0;
    while i < n
        invariant
            n == series@.len(),
            i <= n,
            r@.len() == i,
            forall|j: int| 0 <= j < i ==> r@[j] as int == #[trigger] norm_seq(series@)[j],
        decreases n - i,
    {
        let v = series[i];
        if v < 0 {
            r.push(0);
        } else {
            r.push(v);
        }
        i += 1;
    }
    proof {
        assert(int_seq(r@) =~= norm_seq(series@));
    }
    r
}

/// Sum a series of bounded entries; the result is exactly the
/// mathematical sum, which the entry bounds keep inside `i64`.
pub fn sum_series(v: &Vec<i64>) -> (r: i64)
    requires
        v@.len() <= MAX_SERIES_LEN,
        forall|j: int| 0 <= j < v@.len() ==> -MAX_MAGNITUDE <= #[trigger] v@[j] <= MAX_MAGNITUDE,
    ensures
        r as int == seq_sum(int_seq(v@)),
        -MAX_SUM <= r <= MAX_SUM,
{
    let n = v.len();
    let mut acc: i64 = 0;
    let mut i: usize = 0;
    while i < n
        invariant
            n == v@.len(),
            n <= MAX_SERIES_LEN,
            forall|j: int| 0 <= j < n ==> -MAX_MAGNITUDE <= #[trigger] v@[j] <= MAX_MAGNITUDE,
            i <= n,
            acc as int == seq_sum(int_seq(v@).take(i as int)),
            -(i as int * MAX_MAGNITUDE) <= acc as int <= i as int * MAX_MAGNITUDE,
        decreases n - i,
    {
        proof {
            lemma_seq_sum_take_step(int_seq(v@), i as int);
            lemma_mul_is_distributive_add_other_way(MAX_MAGNITUDE as int, i as int, 1);
            lemma_mul_inequality(i as int + 1, MAX_SERIES_LEN as int, MAX_MAGNITUDE as int);
        }
        acc = acc + v[i];
        i += 1;
    }
    proof {
        assert(int_seq(v@).take(n as int) =~= int_seq(v@));
        lemma_mul_inequality(n as int, MAX_SERIES_LEN as int, MAX_MAGNITUDE as int);
    }
    acc
}

} // verus!
