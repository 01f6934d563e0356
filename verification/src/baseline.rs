//! The baseline of a metric series: the summary of its recent history from
//! which boundaries are derived.

use vstd::prelude::*;
use crate::metrics::{
    lemma_mean_in_range, lemma_variance_nonnegative, spec_mean, spec_variance, MetricsData,
};
use crate::numeric::{is_sqrt_floor, isqrt, sqrt_floor};

verus! {

/// Mean, population variance and standard deviation of the measurements
/// that were used, and their number.
#[derive(Clone, Copy, Debug, PartialEq, Eq)]
pub struct Baseline {
    pub mean: i64,
    pub variance: u128,
    pub std_dev: u64,
    pub sample_count: u32,
}

/// Why a baseline is not computed.
#[derive(Clone, Copy, Debug, PartialEq, Eq)]
pub enum BaselineError {
    /// The history is shorter than the least sample size.
    Insufficient,
    /// The sum of the squared deviations does not fit in 128 bits.
    Overflow,
}

/// The part of a history, newest first, that enters the baseline: its
/// first `max_sample_size` measurements.
pub open spec fn used_history(history: Seq<i64>, max_sample_size: u32) -> Seq<i64> {
    if history.len() <= max_sample_size {
        history
    } else {
        history.take(max_sample_size as int)
    }
}

/// The baseline of a non-empty series, absent where the variance
/// overflows.
pub open spec fn summary(data: Seq<i64>) -> Option<Baseline> {
    match spec_mean(data) {
        None => None,
        Some(m) => match spec_variance(m, data) {
            None => None,
            Some(v) => Some(
                Baseline {
                    mean: m as i64,
                    variance: v as u128,
                    std_dev: sqrt_floor(v) as u64,
                    sample_count: data.len() as u32,
                },
            ),
        },
    }
}

/// The baseline that a history yields under the given sample sizes.
pub open spec fn spec_baseline(
    history: Seq<i64>,
    min_sample_size: u32,
    max_sample_size: u32,
) -> Result<Baseline, BaselineError> {
    if history.len() < min_sample_size || history.len() == 0 || max_sample_size == 0 {
        Err(BaselineError::Insufficient)
    } else {
        match summary(used_history(history, max_sample_size)) {
            Some(b) => Ok(b),
            None => Err(BaselineError::Overflow),
        }
    }
}

impl Baseline {
    /// Whether the fields agree with each other: the standard deviation is
    /// the integer square root of the variance, and at least one
    /// measurement was used.
    pub open spec fn wf(&self) -> bool {
        &&& self.sample_count > 0
        &&& is_sqrt_floor(self.variance as int, self.std_dev as int)
    }

    /// Summarises a history, newest first. At most `max_sample_size`
    /// measurements are used, the newest ones.
    ///
    /// A history shorter than `min_sample_size` yields no baseline, and so
    /// does an empty one.
    pub fn compute(history: &[i64], min_sample_size: u32, max_sample_size: u32) -> (result: Result<
        Baseline,
        BaselineError,
    >)
        ensures
            result == spec_baseline(history@, min_sample_size, max_sample_size),
            result matches Ok(b) ==> {
                &&& b.wf()
                &&& b.sample_count <= max_sample_size
                &&& b.sample_count == used_history(history@, max_sample_size).len()
            },
    {
        let length: usize = history.len();
        if length < min_sample_size as usize || length == 0 || max_sample_size == 0 {
            return Err(BaselineError::Insufficient);
        }
        let count: usize = if length <= max_sample_size as usize {
            length
        } else {
            max_sample_size as usize
        };
        let used: &[i64] = vstd::slice::slice_subrange(history, 0, count);
        proof {
            assert(used@ =~= used_history(history@, max_sample_size));
            lemma_mean_in_range(used@);
        }
        let mean: i64 = match MetricsData::mean(used) {
            Some(m) => m,
            None => {
                return Err(BaselineError::Insufficient);
            },
        };
        match MetricsData::variance(mean, used) {
            Some(variance) => {
                proof {
                    lemma_variance_nonnegative(mean as int, used@);
                }
                Ok(
                    Baseline {
                        mean,
                        variance,
                        std_dev: isqrt(variance),
                        sample_count: count as u32,
                    },
                )
            },
            None => Err(BaselineError::Overflow),
        }
    }
}

} // verus!
