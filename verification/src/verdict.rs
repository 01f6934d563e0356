//! Evaluation: the verdict on a new measurement, given the history of its
//! series and the threshold policy.

use vstd::prelude::*;
use crate::baseline::{spec_baseline, Baseline, BaselineError};
use crate::boundary::{spec_boundary, Boundary};
use crate::threshold::{ConfigError, ThresholdPolicy};

verus! {

/// The side on which a measurement left the boundary.
#[derive(Clone, Copy, Debug, PartialEq, Eq)]
pub enum Side {
    Lower,
    Upper,
}

/// The outcome of an evaluation.
#[derive(Clone, Copy, Debug, PartialEq, Eq)]
pub enum Verdict {
    /// The history is too short for a baseline. This is the expected
    /// outcome for the first measurements of a series, not a failure.
    NoBaseline,
    /// The measurement is within the boundary.
    Normal,
    /// The measurement lies beyond the limit `bound` on `side`.
    Regressed { side: Side, bound: i128, value: i64 },
}

/// Why the history of a series or its policy could not be read.
#[derive(Clone, Copy, Debug, PartialEq, Eq)]
pub enum StoreError {
    History,
    Policy,
}

/// Why an evaluation fails.
#[derive(Clone, Copy, Debug, PartialEq, Eq)]
pub enum EngineError {
    /// The policy cannot be applied.
    Config(ConfigError),
    /// The history could not be read.
    Store(StoreError),
    /// The variance of the history does not fit in 128 bits.
    Overflow,
}

/// Whether `value` lies below the lower limit.
pub open spec fn is_below(value: i64, boundary: Boundary) -> bool {
    boundary.lower matches Some(lower) && value < lower
}

/// Whether `value` lies above the upper limit.
pub open spec fn is_above(value: i64, boundary: Boundary) -> bool {
    boundary.upper matches Some(upper) && value > upper
}

/// The verdict on `value` against a boundary. The lower limit is judged
/// first; a value beyond both limits at once shows limits that are not in
/// order, and yields no verdict.
pub open spec fn spec_classify(value: i64, boundary: Boundary) -> Result<Verdict, ConfigError> {
    if is_below(value, boundary) && is_above(value, boundary) {
        Err(ConfigError::CrossedBounds)
    } else if is_below(value, boundary) {
        Ok(Verdict::Regressed { side: Side::Lower, bound: boundary.lower.unwrap(), value })
    } else if is_above(value, boundary) {
        Ok(Verdict::Regressed { side: Side::Upper, bound: boundary.upper.unwrap(), value })
    } else {
        Ok(Verdict::Normal)
    }
}

/// The verdict on `value` against a baseline under a policy.
pub open spec fn spec_judge(value: i64, baseline: Baseline, policy: ThresholdPolicy) -> Result<
    Verdict,
    EngineError,
> {
    match spec_boundary(policy, baseline) {
        Err(e) => Err(EngineError::Config(e)),
        Ok(boundary) => match spec_classify(value, boundary) {
            Err(e) => Err(EngineError::Config(e)),
            Ok(verdict) => Ok(verdict),
        },
    }
}

/// The outcome of evaluating `value` against a history, newest first,
/// under a policy.
pub open spec fn spec_evaluate(value: i64, history: Seq<i64>, policy: ThresholdPolicy) -> Result<
    Verdict,
    EngineError,
> {
    match spec_baseline(history, policy.min_sample_size, policy.max_sample_size) {
        Err(BaselineError::Insufficient) => Ok(Verdict::NoBaseline),
        Err(BaselineError::Overflow) => Err(EngineError::Overflow),
        Ok(baseline) => spec_judge(value, baseline, policy),
    }
}

/// Classifies a measurement against a boundary.
///
/// Both limits are exclusive: a measurement equal to a limit is normal.
pub fn classify(value: i64, boundary: &Boundary) -> (result: Result<Verdict, ConfigError>)
    ensures
        result == spec_classify(value, *boundary),
{
    let below: bool = match boundary.lower {
        Some(lower) => (value as i128) < lower,
        None => false,
    };
    let above: bool = match boundary.upper {
        Some(upper) => (value as i128) > upper,
        None => false,
    };
    if below && above {
        Err(ConfigError::CrossedBounds)
    } else if below {
        match boundary.lower {
            Some(bound) => Ok(Verdict::Regressed { side: Side::Lower, bound, value }),
            None => Ok(Verdict::Normal),
        }
    } else if above {
        match boundary.upper {
            Some(bound) => Ok(Verdict::Regressed { side: Side::Upper, bound, value }),
            None => Ok(Verdict::Normal),
        }
    } else {
        Ok(Verdict::Normal)
    }
}

/// Evaluates a new measurement against the history of its series, newest
/// first, under a policy.
///
/// The history must not hold the measurement itself. At most
/// `max_sample_size` of its measurements are used, the newest ones.
pub fn evaluate(value: i64, history: &[i64], policy: &ThresholdPolicy) -> (result: Result<
    Verdict,
    EngineError,
>)
    requires
        policy.wf(),
    ensures
        result == spec_evaluate(value, history@, *policy),
{
    match Baseline::compute(history, policy.min_sample_size, policy.max_sample_size) {
        Err(BaselineError::Insufficient) => Ok(Verdict::NoBaseline),
        Err(BaselineError::Overflow) => Err(EngineError::Overflow),
        Ok(baseline) => match Boundary::compute(policy, &baseline) {
            Err(e) => Err(EngineError::Config(e)),
            Ok(boundary) => match classify(value, &boundary) {
                Err(e) => Err(EngineError::Config(e)),
                Ok(verdict) => Ok(verdict),
            },
        },
    }
}

/// Evaluates a new measurement against what the store returned for its
/// series. A failed read is passed on as an error: it is never taken for a
/// short history.
pub fn evaluate_fetched(
    value: i64,
    fetched: Result<Vec<i64>, StoreError>,
    policy: &ThresholdPolicy,
) -> (result: Result<Verdict, EngineError>)
    requires
        policy.wf(),
    ensures
        result == match fetched {
            Ok(history) => spec_evaluate(value, history@, *policy),
            Err(e) => Err(EngineError::Store(e)),
        },
{
    match fetched {
        Ok(history) => evaluate(value, history.as_slice(), policy),
        Err(e) => Err(EngineError::Store(e)),
    }
}

/// Evaluates a new measurement where a policy may or may not be configured
/// for its series. Without a policy nothing is checked and there is no
/// verdict, which is not the same as a verdict of no baseline.
pub fn evaluate_configured(value: i64, history: &[i64], policy: Option<&ThresholdPolicy>) -> (result:
    Result<Option<Verdict>, EngineError>)
    requires
        policy matches Some(p) ==> p.wf(),
    ensures
        match policy {
            None => result == Ok::<Option<Verdict>, EngineError>(None),
            Some(p) => match spec_evaluate(value, history@, *p) {
                Ok(verdict) => result == Ok::<Option<Verdict>, EngineError>(Some(verdict)),
                Err(e) => result == Err::<Option<Verdict>, EngineError>(e),
            },
        },
{
    match policy {
        None => Ok(None),
        Some(p) => match evaluate(value, history, p) {
            Ok(verdict) => Ok(Some(verdict)),
            Err(e) => Err(e),
        },
    }
}

/// A history shorter than the least sample size yields no baseline,
/// whatever the new measurement and the rest of the policy.
pub proof fn lemma_short_history_no_baseline(value: i64, history: Seq<i64>, policy: ThresholdPolicy)
    requires
        history.len() < policy.min_sample_size,
    ensures
        spec_evaluate(value, history, policy) == Ok::<Verdict, EngineError>(Verdict::NoBaseline),
{
}

/// A measurement equal to a limit of a boundary whose limits are in order
/// is normal.
pub proof fn lemma_limit_is_normal(value: i64, boundary: Boundary)
    requires
        !boundary.is_crossed(),
        boundary.lower == Some(value as i128) || boundary.upper == Some(value as i128),
    ensures
        spec_classify(value, boundary) == Ok::<Verdict, ConfigError>(Verdict::Normal),
{
}

/// Where an evaluation arrives at a boundary, a measurement equal to one
/// of its limits is normal.
pub proof fn lemma_evaluate_at_limit(value: i64, history: Seq<i64>, policy: ThresholdPolicy)
    requires
        spec_baseline(history, policy.min_sample_size, policy.max_sample_size) matches Ok(baseline)
            && (spec_boundary(policy, baseline) matches Ok(boundary) && (boundary.lower == Some(
            value as i128,
        ) || boundary.upper == Some(value as i128))),
    ensures
        spec_evaluate(value, history, policy) == Ok::<Verdict, EngineError>(Verdict::Normal),
{
    let baseline = spec_baseline(history, policy.min_sample_size, policy.max_sample_size).unwrap();
    let boundary = spec_boundary(policy, baseline).unwrap();
    lemma_limit_is_normal(value, boundary);
}

/// An evaluation depends on nothing but the new measurement, the history
/// and the policy: any two outcomes for the same three are the same.
pub proof fn lemma_evaluate_deterministic(
    value: i64,
    history: Seq<i64>,
    policy: ThresholdPolicy,
    first: Result<Verdict, EngineError>,
    second: Result<Verdict, EngineError>,
)
    requires
        first == spec_evaluate(value, history, policy),
        second == spec_evaluate(value, history, policy),
    ensures
        first == second,
{
}

} // verus!
