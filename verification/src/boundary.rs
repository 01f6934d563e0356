//! The boundaries of a metric series: the limits beyond which a new
//! measurement counts as a regression.

use vstd::prelude::*;
use vstd::arithmetic::div_mod::lemma_div_is_ordered;
use crate::baseline::Baseline;
use crate::critical::{
    lemma_interpolate_bounds, lemma_row_exists, lemma_t_critical_monotone,
    lemma_z_critical_monotone, spec_t_critical, spec_z_critical, t_critical, z_critical,
    CRITICAL_SCALE, TAIL_SCALE,
};
use crate::numeric::{
    div_floor, is_sqrt_floor, isqrt, lemma_floor_div_bounds, lemma_sqrt_floor_exists,
    lemma_sqrt_floor_unique, lemma_square_monotone, sqrt_floor,
};
use crate::tables::{lemma_normal_descending, lemma_student_descending, student_table, NORMAL};
use crate::threshold::{ConfigError, TestKind, ThresholdPolicy};

verus! {

/// The limits derived from a baseline, one for each side that the policy
/// configures. Both are exclusive: a measurement equal to a limit is
/// within bounds.
#[derive(Clone, Copy, Debug, PartialEq, Eq)]
pub struct Boundary {
    pub lower: Option<i128>,
    pub upper: Option<i128>,
}

/// The critical value of the test for the tail probability `p`, in
/// millionths. Student's t distribution is read with one degree of freedom
/// less than the number of measurements.
pub open spec fn spec_critical(kind: TestKind, p: int, sample_count: int) -> int {
    match kind {
        TestKind::ZScore => spec_z_critical(p),
        TestKind::TTest => spec_t_critical(p, sample_count - 1),
    }
}

/// The spread that the critical value multiplies: the standard deviation
/// for a z-score, the standard error of the mean for a t-test.
pub open spec fn spec_spread(kind: TestKind, baseline: Baseline) -> int {
    match kind {
        TestKind::ZScore => baseline.std_dev as int,
        TestKind::TTest => sqrt_floor(baseline.variance as int / baseline.sample_count as int),
    }
}

/// The distance between the mean and a limit placed with tail probability
/// `p`.
pub open spec fn spec_margin(kind: TestKind, p: int, baseline: Baseline) -> int {
    (spec_critical(kind, p, baseline.sample_count as int) * spec_spread(kind, baseline))
        / CRITICAL_SCALE as int
}

/// The upper limit placed with tail probability `p`.
pub open spec fn spec_upper(kind: TestKind, p: int, baseline: Baseline) -> int {
    baseline.mean + spec_margin(kind, p, baseline)
}

/// The lower limit placed with tail probability `p`.
pub open spec fn spec_lower(kind: TestKind, p: int, baseline: Baseline) -> int {
    baseline.mean - spec_margin(kind, p, baseline)
}

/// The limits that a policy places around a baseline, whether or not they
/// are in order.
pub open spec fn spec_limits(policy: ThresholdPolicy, baseline: Baseline) -> Boundary {
    Boundary {
        lower: match policy.left_side {
            Some(p) => Some(spec_lower(policy.test_kind, p as int, baseline) as i128),
            None => None,
        },
        upper: match policy.right_side {
            Some(p) => Some(spec_upper(policy.test_kind, p as int, baseline) as i128),
            None => None,
        },
    }
}

/// The boundary that a policy places around a baseline. Limits of which
/// the lower lies above the upper are a configuration error.
pub open spec fn spec_boundary(policy: ThresholdPolicy, baseline: Baseline) -> Result<
    Boundary,
    ConfigError,
> {
    let limits = spec_limits(policy, baseline);
    if limits.is_crossed() {
        Err(ConfigError::CrossedBounds)
    } else {
        Ok(limits)
    }
}

/// The spread is never negative.
pub proof fn lemma_spread_nonnegative(kind: TestKind, baseline: Baseline)
    requires
        baseline.wf(),
    ensures
        0 <= spec_spread(kind, baseline),
{
    let quotient = baseline.variance as int / baseline.sample_count as int;
    lemma_floor_div_bounds(baseline.variance as int, baseline.sample_count as int);
    lemma_sqrt_floor_exists(quotient);
}

/// The margin fits in 128 bits together with any mean.
pub proof fn lemma_margin_bounds(critical: int, spread: int)
    requires
        i64::MIN <= critical <= i64::MAX,
        0 <= spread <= u64::MAX,
    ensures
        -0x7fff_ffff_ffff_ffff_8000_0000_0000_0000 <= critical * spread
            <= 0x7fff_ffff_ffff_ffff_8000_0000_0000_0000,
        -0x7fff_ffff_ffff_ffff_8000_0000_0000_0000 <= (critical * spread) / CRITICAL_SCALE as int
            <= 0x7fff_ffff_ffff_ffff_8000_0000_0000_0000,
{
    let product = critical * spread;
    assert(-0x8000_0000_0000_0000 * spread <= product <= 0x8000_0000_0000_0000 * spread)
        by (nonlinear_arith)
        requires
            product == critical * spread,
            -0x8000_0000_0000_0000 <= critical <= 0x8000_0000_0000_0000,
            0 <= spread,
    ;
    lemma_floor_div_bounds(product, CRITICAL_SCALE as int);
}

/// Lowering a tail probability never draws a limit closer to the mean:
/// the upper limit does not fall and the lower limit does not rise.
pub proof fn lemma_limits_monotone(kind: TestKind, baseline: Baseline, p: int, q: int)
    requires
        baseline.wf(),
        p <= q,
    ensures
        spec_upper(kind, p, baseline) >= spec_upper(kind, q, baseline),
        spec_lower(kind, p, baseline) <= spec_lower(kind, q, baseline),
{
    let spread = spec_spread(kind, baseline);
    let count = baseline.sample_count as int;
    lemma_spread_nonnegative(kind, baseline);
    match kind {
        TestKind::ZScore => {
            lemma_z_critical_monotone(p, q);
        },
        TestKind::TTest => {
            lemma_t_critical_monotone(p, q, count - 1);
        },
    }
    let high = spec_critical(kind, p, count);
    let low = spec_critical(kind, q, count);
    assert(low * spread <= high * spread) by (nonlinear_arith)
        requires
            low <= high,
            0 <= spread,
    ;
    lemma_div_is_ordered(low * spread, high * spread, CRITICAL_SCALE as int);
}

/// The critical value of either test fits in 64 bits.
pub proof fn lemma_critical_bounds(kind: TestKind, p: int, sample_count: int)
    requires
        sample_count >= 1,
    ensures
        i64::MIN < spec_critical(kind, p, sample_count) <= i64::MAX,
{
    lemma_normal_descending();
    let r = lemma_row_exists(sample_count - 1);
    lemma_student_descending(r);
    let table = match kind {
        TestKind::ZScore => NORMAL@,
        TestKind::TTest => student_table(r),
    };
    lemma_interpolate_bounds(table, p);
    lemma_interpolate_bounds(table, TAIL_SCALE - p);
}

/// The limits that a policy places are those of its tail probabilities,
/// without any loss.
pub proof fn lemma_limits_exact(policy: ThresholdPolicy, baseline: Baseline)
    requires
        baseline.wf(),
    ensures
        policy.left_side matches Some(p) ==> spec_limits(policy, baseline).lower == Some(
            spec_lower(policy.test_kind, p as int, baseline) as i128,
        ) && spec_lower(policy.test_kind, p as int, baseline) as i128 == spec_lower(
            policy.test_kind,
            p as int,
            baseline,
        ),
        policy.right_side matches Some(p) ==> spec_limits(policy, baseline).upper == Some(
            spec_upper(policy.test_kind, p as int, baseline) as i128,
        ) && spec_upper(policy.test_kind, p as int, baseline) as i128 == spec_upper(
            policy.test_kind,
            p as int,
            baseline,
        ),
{
    let kind = policy.test_kind;
    let count = baseline.sample_count as int;
    lemma_spread_nonnegative(kind, baseline);
    lemma_spread_bounds(kind, baseline);
    if policy.left_side is Some {
        let p = policy.left_side.unwrap() as int;
        lemma_critical_bounds(kind, p, count);
        lemma_margin_bounds(spec_critical(kind, p, count), spec_spread(kind, baseline));
    }
    if policy.right_side is Some {
        let p = policy.right_side.unwrap() as int;
        lemma_critical_bounds(kind, p, count);
        lemma_margin_bounds(spec_critical(kind, p, count), spec_spread(kind, baseline));
    }
}

/// The spread fits in 64 bits.
pub proof fn lemma_spread_bounds(kind: TestKind, baseline: Baseline)
    requires
        baseline.wf(),
    ensures
        spec_spread(kind, baseline) <= u64::MAX,
{
    let quotient = baseline.variance as int / baseline.sample_count as int;
    lemma_floor_div_bounds(baseline.variance as int, baseline.sample_count as int);
    lemma_sqrt_floor_exists(quotient);
    let root = sqrt_floor(quotient);
    if root > u64::MAX {
        lemma_square_monotone(u64::MAX as int + 1, root);
        assert((u64::MAX as int + 1) * (u64::MAX as int + 1) > u128::MAX) by (nonlinear_arith);
    }
}

/// Of two policies that differ in nothing but their tail probabilities,
/// the one with the lower tail probability on a side places its limit on
/// that side at least as far from the mean.
pub proof fn lemma_boundary_monotone(
    tight: ThresholdPolicy,
    wide: ThresholdPolicy,
    baseline: Baseline,
)
    requires
        baseline.wf(),
        tight.test_kind == wide.test_kind,
    ensures
        (tight.right_side matches Some(p) && wide.right_side matches Some(q) && q <= p)
            ==> spec_limits(wide, baseline).upper.unwrap() >= spec_limits(
            tight,
            baseline,
        ).upper.unwrap(),
        (tight.left_side matches Some(p) && wide.left_side matches Some(q) && q <= p)
            ==> spec_limits(wide, baseline).lower.unwrap() <= spec_limits(
            tight,
            baseline,
        ).lower.unwrap(),
{
    lemma_limits_exact(tight, baseline);
    lemma_limits_exact(wide, baseline);
    if tight.right_side is Some && wide.right_side is Some {
        let p = tight.right_side.unwrap() as int;
        let q = wide.right_side.unwrap() as int;
        if q <= p {
            lemma_limits_monotone(tight.test_kind, baseline, q, p);
        }
    }
    if tight.left_side is Some && wide.left_side is Some {
        let p = tight.left_side.unwrap() as int;
        let q = wide.left_side.unwrap() as int;
        if q <= p {
            lemma_limits_monotone(tight.test_kind, baseline, q, p);
        }
    }
}

/// A baseline without variance, such as that of a single measurement, has
/// both limits at its mean, whatever the test and the tail probability.
pub proof fn lemma_no_spread_limits(kind: TestKind, p: int, baseline: Baseline)
    requires
        baseline.wf(),
        baseline.variance == 0,
    ensures
        spec_upper(kind, p, baseline) == baseline.mean,
        spec_lower(kind, p, baseline) == baseline.mean,
{
    assert(is_sqrt_floor(0, 0));
    lemma_sqrt_floor_unique(0, 0);
    lemma_sqrt_floor_unique(0, baseline.std_dev as int);
    assert(0int / (baseline.sample_count as int) == 0);
    let critical = spec_critical(kind, p, baseline.sample_count as int);
    assert(critical * 0 == 0) by (nonlinear_arith);
    assert(0int / (CRITICAL_SCALE as int) == 0);
}

impl Boundary {
    /// Whether both limits are present and the lower lies above the upper.
    pub open spec fn is_crossed(&self) -> bool {
        match (self.lower, self.upper) {
            (Some(lower), Some(upper)) => lower > upper,
            _ => false,
        }
    }

    /// The distance between the mean and a limit placed with tail
    /// probability `p`.
    fn margin(kind: TestKind, p: u32, baseline: &Baseline) -> (margin: i128)
        requires
            baseline.wf(),
            0 < p < TAIL_SCALE,
        ensures
            margin == spec_margin(kind, p as int, *baseline),
            -0x7fff_ffff_ffff_ffff_8000_0000_0000_0000 <= margin
                <= 0x7fff_ffff_ffff_ffff_8000_0000_0000_0000,
    {
        let critical: i64 = match kind {
            TestKind::ZScore => z_critical(p),
            TestKind::TTest => t_critical(p, baseline.sample_count - 1),
        };
        let spread: u64 = match kind {
            TestKind::ZScore => baseline.std_dev,
            TestKind::TTest => isqrt(baseline.variance / (baseline.sample_count as u128)),
        };
        proof {
            lemma_margin_bounds(critical as int, spread as int);
        }
        div_floor(critical as i128 * spread as i128, CRITICAL_SCALE as i128)
    }

    /// Places the limits of a policy around a baseline.
    ///
    /// Each configured side gets its limit, at the critical value of its
    /// tail probability times the spread away from the mean; a side
    /// without a tail probability gets none.
    pub fn compute(policy: &ThresholdPolicy, baseline: &Baseline) -> (result: Result<
        Boundary,
        ConfigError,
    >)
        requires
            policy.wf(),
            baseline.wf(),
        ensures
            result == spec_boundary(*policy, *baseline),
            result matches Ok(b) ==> {
                &&& b.lower.is_some() == policy.left_side.is_some()
                &&& b.upper.is_some() == policy.right_side.is_some()
                &&& !b.is_crossed()
            },
    {
        let lower: Option<i128> = match policy.left_side {
            Some(p) => Some(baseline.mean as i128 - Self::margin(policy.test_kind, p, baseline)),
            None => None,
        };
        let upper: Option<i128> = match policy.right_side {
            Some(p) => Some(baseline.mean as i128 + Self::margin(policy.test_kind, p, baseline)),
            None => None,
        };
        let crossed: bool = match (lower, upper) {
            (Some(l), Some(u)) => l > u,
            _ => false,
        };
        if crossed {
            Err(ConfigError::CrossedBounds)
        } else {
            Ok(Boundary { lower, upper })
        }
    }
}

} // verus!
