//! Summary statistics over the measurements of one metric series.
//!
//! Measurements are integers counted in the smallest unit that the series
//! tracks. Every statistic is defined over the mathematical integers and
//! rounded toward negative infinity where a quotient or a root is taken.

use vstd::prelude::*;
use crate::numeric::{
    div_floor, is_sqrt_floor, isqrt, lemma_floor_div_bounds, lemma_sqrt_floor_exists,
    lemma_sqrt_floor_unique, sqrt_floor,
};

verus! {

/// The sum of all measurements.
pub open spec fn sum(data: Seq<i64>) -> int
    decreases data.len(),
{
    if data.len() == 0 {
        0
    } else {
        sum(data.drop_last()) + data.last()
    }
}

/// The sum of the squared deviations of the measurements from `mean`.
pub open spec fn sum_sq_dev(mean: int, data: Seq<i64>) -> int
    decreases data.len(),
{
    if data.len() == 0 {
        0
    } else {
        sum_sq_dev(mean, data.drop_last()) + (mean - data.last()) * (mean - data.last())
    }
}

/// The arithmetic mean, absent for an empty series.
pub open spec fn spec_mean(data: Seq<i64>) -> Option<int> {
    if data.len() == 0 {
        None
    } else {
        Some(sum(data) / (data.len() as int))
    }
}

/// The population variance around `mean`: the mean of the squared
/// deviations, with the number of measurements as divisor. Absent for an
/// empty series and where the sum of squares exceeds 128 bits.
pub open spec fn spec_variance(mean: int, data: Seq<i64>) -> Option<int> {
    if data.len() == 0 || sum_sq_dev(mean, data) > u128::MAX {
        None
    } else {
        Some(sum_sq_dev(mean, data) / (data.len() as int))
    }
}

/// The population standard deviation: the integer square root of the
/// variance.
pub open spec fn spec_std_deviation(mean: int, data: Seq<i64>) -> Option<int> {
    match spec_variance(mean, data) {
        Some(v) => Some(sqrt_floor(v)),
        None => None,
    }
}

/// Extending a prefix by one measurement adds that measurement to the sum.
pub proof fn lemma_sum_take(data: Seq<i64>, i: int)
    requires
        0 <= i < data.len(),
    ensures
        sum(data.take(i + 1)) == sum(data.take(i)) + data[i],
{
    assert(data.take(i + 1).drop_last() =~= data.take(i));
}

/// Extending a prefix by one measurement adds its squared deviation.
pub proof fn lemma_sum_sq_dev_take(mean: int, data: Seq<i64>, i: int)
    requires
        0 <= i < data.len(),
    ensures
        sum_sq_dev(mean, data.take(i + 1)) == sum_sq_dev(mean, data.take(i)) + (mean - data[i]) * (
        mean - data[i]),
{
    assert(data.take(i + 1).drop_last() =~= data.take(i));
}

/// The sum lies between the length times the least and the greatest value
/// that a measurement can take.
pub proof fn lemma_sum_bounds(data: Seq<i64>)
    ensures
        data.len() * i64::MIN <= sum(data) <= data.len() * i64::MAX,
    decreases data.len(),
{
    if data.len() > 0 {
        lemma_sum_bounds(data.drop_last());
        let n = data.len() as int;
        assert((n - 1) * i64::MIN + i64::MIN == n * i64::MIN) by (nonlinear_arith);
        assert((n - 1) * i64::MAX + i64::MAX == n * i64::MAX) by (nonlinear_arith);
    }
}

/// A sum of squared deviations is never negative, and never smaller than
/// that of a prefix.
pub proof fn lemma_sum_sq_dev_prefix(mean: int, data: Seq<i64>, i: int)
    requires
        0 <= i <= data.len(),
    ensures
        0 <= sum_sq_dev(mean, data.take(i)) <= sum_sq_dev(mean, data),
    decreases data.len() - i,
{
    lemma_sum_sq_dev_nonnegative(mean, data.take(i));
    if i < data.len() {
        lemma_sum_sq_dev_take(mean, data, i);
        lemma_sum_sq_dev_prefix(mean, data, i + 1);
        let d = mean - data[i];
        assert(d * d >= 0) by (nonlinear_arith);
    } else {
        assert(data.take(i) =~= data);
    }
}

/// A sum of squared deviations is never negative.
pub proof fn lemma_sum_sq_dev_nonnegative(mean: int, data: Seq<i64>)
    ensures
        0 <= sum_sq_dev(mean, data),
    decreases data.len(),
{
    if data.len() > 0 {
        lemma_sum_sq_dev_nonnegative(mean, data.drop_last());
        let d = mean - data.last();
        assert(d * d >= 0) by (nonlinear_arith);
    }
}

/// The mean of a non-empty series is itself a value that a measurement can
/// take.
pub proof fn lemma_mean_in_range(data: Seq<i64>)
    requires
        data.len() > 0,
    ensures
        i64::MIN <= sum(data) / (data.len() as int) <= i64::MAX,
{
    let n = data.len() as int;
    let s = sum(data);
    lemma_sum_bounds(data);
    lemma_floor_div_bounds(s, n);
    let q = s / n;
    assert(i64::MIN <= q <= i64::MAX) by (nonlinear_arith)
        requires
            n > 0,
            n * i64::MIN <= s <= n * i64::MAX,
            n * q <= s < n * q + n,
    ;
}

/// The variance of any series around any centre is never negative.
pub proof fn lemma_variance_nonnegative(mean: int, data: Seq<i64>)
    ensures
        spec_variance(mean, data) matches Some(v) ==> v >= 0,
        spec_std_deviation(mean, data) matches Some(d) ==> d >= 0,
{
    if data.len() > 0 {
        lemma_sum_sq_dev_nonnegative(mean, data);
        lemma_floor_div_bounds(sum_sq_dev(mean, data), data.len() as int);
        if spec_variance(mean, data).is_some() {
            let v = spec_variance(mean, data).unwrap();
            lemma_sqrt_floor_exists(v);
        }
    }
}

/// A series of a single measurement has that measurement as its mean, and
/// neither variance nor standard deviation around it.
pub proof fn lemma_single_measurement(data: Seq<i64>)
    requires
        data.len() == 1,
    ensures
        spec_mean(data) == Some(data[0] as int),
        spec_variance(data[0] as int, data) == Some(0int),
        spec_std_deviation(data[0] as int, data) == Some(0int),
{
    let v = data[0] as int;
    assert(data.drop_last().len() == 0);
    assert(sum(data.drop_last()) == 0);
    assert(sum(data) == v);
    assert(sum_sq_dev(v, data.drop_last()) == 0);
    assert(sum_sq_dev(v, data) == 0);
    assert(is_sqrt_floor(0, 0));
    lemma_sqrt_floor_unique(0, 0);
}

/// The measurements of one metric series, newest first.
pub struct MetricsData {
    pub data: Vec<i64>,
}

impl MetricsData {
    /// The arithmetic mean of `data`, rounded toward negative infinity.
    pub fn mean(data: &[i64]) -> (result: Option<i64>)
        ensures
            result.is_some() <==> data@.len() > 0,
            match result {
                Some(m) => spec_mean(data@) == Some(m as int),
                None => spec_mean(data@).is_none(),
            },
    {
        let length: usize = data.len();
        if length == 0 {
            return None;
        }
        let mut total: i128 = 0;
        let mut i: usize = 0;
        while i < length
            invariant
                length == data@.len(),
                0 <= i <= length,
                total == sum(data@.take(i as int)),
            decreases length - i,
        {
            proof {
                lemma_sum_take(data@, i as int);
                lemma_sum_bounds(data@.take(i as int));
                assert(i * i64::MIN >= usize::MAX * i64::MIN) by (nonlinear_arith)
                    requires
                        0 <= i <= usize::MAX,
                ;
                assert(i * i64::MAX <= usize::MAX * i64::MAX) by (nonlinear_arith)
                    requires
                        0 <= i <= usize::MAX,
                ;
            }
            total = total + data[i] as i128;
            i = i + 1;
        }
        proof {
            assert(data@.take(length as int) =~= data@);
            lemma_mean_in_range(data@);
        }
        let quotient: i128 = div_floor(total, length as i128);
        Some(quotient as i64)
    }
    /// The population variance of `data` around `mean`.
    ///
    /// Returns `None` for an empty series, and where the sum of squared
    /// deviations does not fit in 128 bits.
    pub fn variance(mean: i64, data: &[i64]) -> (result: Option<u128>)
        ensures
            match result {
                Some(v) => spec_variance(mean as int, data@) == Some(v as int),
                None => spec_variance(mean as int, data@).is_none(),
            },
    {
        let length: usize = data.len();
        if length == 0 {
            return None;
        }
        let mut total: u128 = 0;
        let mut i: usize = 0;
        while i < length
            invariant
                length == data@.len(),
                0 <= i <= length,
                total == sum_sq_dev(mean as int, data@.take(i as int)),
            decreases length - i,
        {
            proof {
                lemma_sum_sq_dev_take(mean as int, data@, i as int);
                lemma_sum_sq_dev_prefix(mean as int, data@, i as int + 1);
            }
            let diff: i128 = mean as i128 - data[i] as i128;
            let magnitude: u128 = if diff < 0 {
                (-diff) as u128
            } else {
                diff as u128
            };
            proof {
                assert(magnitude * magnitude == diff * diff) by (nonlinear_arith)
                    requires
                        magnitude == diff || magnitude == -diff,
                ;
                assert(magnitude * magnitude <= u128::MAX) by (nonlinear_arith)
                    requires
                        0 <= magnitude <= 0xffff_ffff_ffff_ffff,
                ;
            }
            let square: u128 = magnitude * magnitude;
            match total.checked_add(square) {
                Some(next) => {
                    total = next;
                },
                None => {
                    return None;
                },
            }
            i = i + 1;
        }
        proof {
            assert(data@.take(length as int) =~= data@);
        }
        Some(total / (length as u128))
    }

    /// The population standard deviation of `data` around `mean`: the
    /// integer square root of the variance.
    pub fn std_deviation(mean: i64, data: &[i64]) -> (result: Option<u64>)
        ensures
            match result {
                Some(d) => spec_std_deviation(mean as int, data@) == Some(d as int),
                None => spec_std_deviation(mean as int, data@).is_none(),
            },
    {
        match Self::variance(mean, data) {
            Some(v) => Some(isqrt(v)),
            None => None,
        }
    }
}

} // verus!
