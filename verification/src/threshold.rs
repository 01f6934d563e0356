//! The threshold policy: which statistical test guards a metric series, and
//! with which parameters.

use vstd::prelude::*;
use crate::critical::TAIL_SCALE;
use crate::lookup::{self, is_id_of, is_uuid_of, Keyed};
use crate::resource_id::{canonical_uuid, random_uuid, text_of, uuid_hyphenated, ApiError};

verus! {

/// The statistical model that turns a baseline into boundaries.
#[derive(Clone, Copy, Debug, PartialEq, Eq)]
pub enum TestKind {
    /// Distance from the mean in standard deviations of the history.
    ZScore,
    /// Distance from the mean in standard errors of the mean, judged by
    /// Student's t distribution.
    TTest,
}

/// Why a threshold configuration is rejected.
#[derive(Clone, Copy, Debug, PartialEq, Eq)]
pub enum ConfigError {
    /// The least sample size is zero or exceeds the greatest.
    SampleSize,
    /// Neither side has a tail probability.
    NoSide,
    /// A tail probability is not strictly between zero and one.
    TailProbability,
    /// The lower boundary lies above the upper boundary.
    CrossedBounds,
}

/// The configuration of regression detection for one metric series.
///
/// Tail probabilities are counted in millionths: `50_000` stands for 0.05.
#[derive(Clone, Copy, Debug, PartialEq, Eq)]
pub struct ThresholdPolicy {
    pub test_kind: TestKind,
    /// Fewest measurements from which a baseline is computed.
    pub min_sample_size: u32,
    /// Most measurements that enter a baseline.
    pub max_sample_size: u32,
    /// Length in seconds of the period before an evaluation from which
    /// history is taken.
    pub window: u64,
    /// Tail probability that places the lower boundary.
    pub left_side: Option<u32>,
    /// Tail probability that places the upper boundary.
    pub right_side: Option<u32>,
}

/// Whether a tail probability, where one is given, lies strictly between
/// zero and one.
pub open spec fn is_tail_probability(side: Option<u32>) -> bool {
    match side {
        Some(p) => 0 < p < TAIL_SCALE,
        None => true,
    }
}

/// The reason for which a configuration is rejected, if any. Sample sizes
/// are judged first, then the presence of a side, then the probabilities.
pub open spec fn config_error(
    min_sample_size: u32,
    max_sample_size: u32,
    left_side: Option<u32>,
    right_side: Option<u32>,
) -> Option<ConfigError> {
    if min_sample_size == 0 || min_sample_size > max_sample_size {
        Some(ConfigError::SampleSize)
    } else if left_side.is_none() && right_side.is_none() {
        Some(ConfigError::NoSide)
    } else if !is_tail_probability(left_side) || !is_tail_probability(right_side) {
        Some(ConfigError::TailProbability)
    } else {
        None
    }
}

/// Tells whether a tail probability, where one is given, lies strictly
/// between zero and one.
fn check_tail_probability(side: Option<u32>) -> (ok: bool)
    ensures
        ok == is_tail_probability(side),
{
    match side {
        Some(p) => 0 < p && p < TAIL_SCALE,
        None => true,
    }
}

impl ThresholdPolicy {
    /// Whether the policy is one that `new` accepts: sample sizes positive
    /// and ordered, at least one side, every tail probability strictly
    /// between zero and one.
    pub open spec fn wf(&self) -> bool {
        config_error(self.min_sample_size, self.max_sample_size, self.left_side, self.right_side)
            .is_none()
    }

    /// Validates a configuration and makes a policy of it.
    pub fn new(
        test_kind: TestKind,
        min_sample_size: u32,
        max_sample_size: u32,
        window: u64,
        left_side: Option<u32>,
        right_side: Option<u32>,
    ) -> (result: Result<ThresholdPolicy, ConfigError>)
        ensures
            match result {
                Ok(policy) => {
                    &&& config_error(min_sample_size, max_sample_size, left_side, right_side)
                        .is_none()
                    &&& policy.wf()
                    &&& policy == (ThresholdPolicy {
                        test_kind,
                        min_sample_size,
                        max_sample_size,
                        window,
                        left_side,
                        right_side,
                    })
                },
                Err(e) => config_error(min_sample_size, max_sample_size, left_side, right_side)
                    == Some(e),
            },
    {
        if min_sample_size == 0 || min_sample_size > max_sample_size {
            Err(ConfigError::SampleSize)
        } else if left_side.is_none() && right_side.is_none() {
            Err(ConfigError::NoSide)
        } else if !check_tail_probability(left_side) || !check_tail_probability(right_side) {
            Err(ConfigError::TailProbability)
        } else {
            Ok(
                ThresholdPolicy {
                    test_kind,
                    min_sample_size,
                    max_sample_size,
                    window,
                    left_side,
                    right_side,
                },
            )
        }
    }

    /// Tells whether the policy is well formed.
    pub fn is_valid(&self) -> (valid: bool)
        ensures
            valid == self.wf(),
    {
        !(self.min_sample_size == 0 || self.min_sample_size > self.max_sample_size) && !(
        self.left_side.is_none() && self.right_side.is_none()) && check_tail_probability(
            self.left_side,
        ) && check_tail_probability(self.right_side)
    }
}

/// A threshold as it is submitted for creation: the branch and the testbed
/// that it guards, each by its identifier.
#[derive(Clone, Debug)]
pub struct JsonNewThreshold {
    pub branch: String,
    pub testbed: String,
}

/// A threshold as it is returned, every identifier in hyphenated form.
#[derive(Clone, Debug)]
pub struct JsonThreshold {
    pub uuid: String,
    pub branch: String,
    pub testbed: String,
    pub z_score: Option<String>,
    pub t_test: Option<String>,
}

/// A row of the table of thresholds.
#[derive(Clone, Debug)]
pub struct QueryThreshold {
    pub id: i32,
    pub uuid: String,
    pub branch_id: i32,
    pub testbed_id: i32,
    pub z_score_id: Option<i32>,
    pub t_test_id: Option<i32>,
}

/// A row to be added to the table of thresholds.
#[derive(Clone, Debug)]
pub struct InsertThreshold {
    pub uuid: String,
    pub branch_id: i32,
    pub testbed_id: i32,
}

/// Whether a result is the returned form of a threshold whose own
/// identifier parsed to `parsed`, given what the lookups of its branch and
/// of its testbed returned. The threshold's identifier is judged first,
/// then the branch, then the testbed.
pub open spec fn is_threshold_json(
    result: Result<JsonThreshold, ApiError>,
    parsed: Option<Seq<char>>,
    branch: Result<String, ApiError>,
    testbed: Result<String, ApiError>,
) -> bool {
    match (parsed, branch, testbed) {
        (None, _, _) => result is Err && result->Err_0 == ApiError::Uuid,
        (Some(_), Err(e), _) => result is Err && result->Err_0 == e,
        (Some(_), Ok(_), Err(e)) => result is Err && result->Err_0 == e,
        (Some(uuid), Ok(b), Ok(t)) => {
            &&& result is Ok
            &&& result->Ok_0.uuid@ == uuid
            &&& result->Ok_0.branch == b
            &&& result->Ok_0.testbed == t
            &&& result->Ok_0.z_score.is_none()
            &&& result->Ok_0.t_test.is_none()
        },
    }
}

impl Keyed for QueryThreshold {
    open spec fn key_id(&self) -> i32 {
        self.id
    }

    open spec fn key_uuid(&self) -> Seq<char> {
        self.uuid@
    }

    fn row_id(&self) -> (id: i32) {
        self.id
    }

    fn row_uuid(&self) -> (uuid: &String) {
        &self.uuid
    }
}

impl QueryThreshold {
    /// The number of the first row that holds the UUID which `uuid` is
    /// parsed to.
    pub fn get_id(rows: &Vec<QueryThreshold>, uuid: &str) -> (result: Result<i32, ApiError>)
        ensures
            is_id_of(result, rows@, uuid_hyphenated(uuid@)),
    {
        lookup::get_id(rows, uuid)
    }

    /// The UUID in hyphenated form of the first row with the number `id`.
    pub fn get_uuid(rows: &Vec<QueryThreshold>, id: i32) -> (result: Result<String, ApiError>)
        ensures
            is_uuid_of(result, rows@, id),
    {
        lookup::get_uuid(rows, id)
    }

    /// Turns the row into the form in which it is returned, given what the
    /// lookups of its branch and of its testbed returned.
    pub fn to_json(self, branch: Result<String, ApiError>, testbed: Result<String, ApiError>) -> (result:
        Result<JsonThreshold, ApiError>)
        ensures
            is_threshold_json(result, uuid_hyphenated(self.uuid@), branch, testbed),
    {
        let parsed = canonical_uuid(self.uuid.as_str());
        Self::json_with_uuid(parsed, branch, testbed)
    }

    /// The form in which a threshold is returned, given what its
    /// identifier parsed to and what the lookups of its branch and of its
    /// testbed returned.
    pub fn json_with_uuid(
        parsed: Option<String>,
        branch: Result<String, ApiError>,
        testbed: Result<String, ApiError>,
    ) -> (result: Result<JsonThreshold, ApiError>)
        ensures
            is_threshold_json(result, text_of(parsed), branch, testbed),
    {
        let uuid: String = match parsed {
            Some(uuid) => uuid,
            None => {
                return Err(ApiError::Uuid);
            },
        };
        let branch: String = match branch {
            Ok(b) => b,
            Err(e) => {
                return Err(e);
            },
        };
        let testbed: String = match testbed {
            Ok(t) => t,
            Err(e) => {
                return Err(e);
            },
        };
        Ok(JsonThreshold { uuid, branch, testbed, z_score: None, t_test: None })
    }
}

impl InsertThreshold {
    /// The row for a new threshold, given what the lookups of its branch
    /// and of its testbed returned: the branch is judged first. The row
    /// gets a random identifier.
    pub fn from_json(branch_id: Result<i32, ApiError>, testbed_id: Result<i32, ApiError>) -> (result:
        Result<InsertThreshold, ApiError>)
        ensures
            match (branch_id, testbed_id) {
                (Err(e), _) => result is Err && result->Err_0 == e,
                (Ok(_), Err(e)) => result is Err && result->Err_0 == e,
                (Ok(b), Ok(t)) => {
                    &&& result is Ok
                    &&& result->Ok_0.uuid@.len() == 36
                    &&& result->Ok_0.branch_id == b
                    &&& result->Ok_0.testbed_id == t
                },
            },
    {
        let branch_id: i32 = match branch_id {
            Ok(id) => id,
            Err(e) => {
                return Err(e);
            },
        };
        let testbed_id: i32 = match testbed_id {
            Ok(id) => id,
            Err(e) => {
                return Err(e);
            },
        };
        Ok(InsertThreshold { uuid: random_uuid(), branch_id, testbed_id })
    }
}

} // verus!
