//! The history of a metric series: which stored measurements are eligible
//! for a baseline, and in which order they are taken.

use vstd::prelude::*;
use crate::metrics::MetricsData;
use crate::perf::JsonPerfKind;
use crate::threshold::ThresholdPolicy;
use crate::verdict::{evaluate, spec_evaluate, EngineError, Verdict};

verus! {

/// One measurement, with what orders it among the others of its series.
#[derive(Clone, Copy, Debug, PartialEq, Eq)]
pub struct MetricSample {
    /// The measured quantity.
    pub value: i64,
    /// The number of the version that was measured.
    pub version_number: u32,
    /// When the report that holds the measurement started, in seconds.
    pub start_time: i64,
    /// The iteration within the report.
    pub iteration: u32,
}

/// A stored measurement, with the series that it belongs to.
#[derive(Clone, Copy, Debug, PartialEq, Eq)]
pub struct MetricRow {
    pub branch_id: i32,
    pub testbed_id: i32,
    pub benchmark_id: i32,
    pub kind: JsonPerfKind,
    pub sample: MetricSample,
}

/// The series whose history is asked for, and the time at which it is
/// asked for.
#[derive(Clone, Copy, Debug, PartialEq, Eq)]
pub struct SeriesQuery {
    pub branch_id: i32,
    pub testbed_id: i32,
    pub benchmark_id: i32,
    pub kind: JsonPerfKind,
    /// The time of the evaluation, in seconds: the end of the period from
    /// which history is taken, which it does not belong to.
    pub now: i64,
}

/// Whether `a` is more recent than `b`: of a later version; failing that,
/// of a report that started later; failing that, of a later iteration.
pub open spec fn is_newer(a: MetricSample, b: MetricSample) -> bool {
    ||| a.version_number > b.version_number
    ||| a.version_number == b.version_number && a.start_time > b.start_time
    ||| a.version_number == b.version_number && a.start_time == b.start_time && a.iteration
        > b.iteration
}

/// Whether a stored measurement belongs to the series that is asked for
/// and to the period of `window` seconds before the evaluation.
pub open spec fn is_eligible(row: MetricRow, query: SeriesQuery, window: u64) -> bool {
    &&& row.branch_id == query.branch_id
    &&& row.testbed_id == query.testbed_id
    &&& row.benchmark_id == query.benchmark_id
    &&& row.kind == query.kind
    &&& query.now - window <= row.sample.start_time < query.now
}

/// Whether the row at position `a` is taken before the row at position
/// `b`: the more recent one first, and of two that are equally recent the
/// one that is stored first.
pub open spec fn precedes(rows: Seq<MetricRow>, a: int, b: int) -> bool {
    ||| is_newer(rows[a].sample, rows[b].sample)
    ||| !is_newer(rows[b].sample, rows[a].sample) && a < b
}

/// Whether `picked` holds the positions of the history of a series under
/// a policy: the rows that are eligible within the window of the policy,
/// in the order in which they are taken, cut off after as many as the
/// policy uses at most.
pub open spec fn is_history(
    rows: Seq<MetricRow>,
    query: SeriesQuery,
    policy: ThresholdPolicy,
    picked: Seq<int>,
) -> bool {
    &&& picked.len() <= policy.max_sample_size
    &&& forall|k: int|
        0 <= k < picked.len() ==> 0 <= #[trigger] picked[k] < rows.len() && is_eligible(
            rows[picked[k]],
            query,
            policy.window,
        )
    &&& forall|j: int, k: int|
        0 <= j < k < picked.len() ==> precedes(rows, #[trigger] picked[j], #[trigger] picked[k])
    &&& forall|e: int|
        0 <= e < rows.len() && is_eligible(#[trigger] rows[e], query, policy.window) && !picked.contains(
            e,
        ) ==> {
            &&& picked.len() == policy.max_sample_size
            &&& forall|k: int| 0 <= k < picked.len() ==> precedes(rows, #[trigger] picked[k], e)
        }
}

/// The measured quantities of the rows at the given positions.
pub open spec fn values_at(rows: Seq<MetricRow>, picked: Seq<int>) -> Seq<i64> {
    Seq::new(picked.len(), |k: int| rows[picked[k]].sample.value)
}

/// Of two rows one is taken before the other, and taking before is
/// transitive.
pub proof fn lemma_precedes_order(rows: Seq<MetricRow>, a: int, b: int, c: int)
    ensures
        a != b ==> precedes(rows, a, b) || precedes(rows, b, a),
        !(precedes(rows, a, b) && precedes(rows, b, a)),
        precedes(rows, a, b) && precedes(rows, b, c) ==> precedes(rows, a, c),
{
}

/// Two histories of the same series agree on every position that both
/// have.
proof fn lemma_history_prefix(
    rows: Seq<MetricRow>,
    query: SeriesQuery,
    policy: ThresholdPolicy,
    p: Seq<int>,
    q: Seq<int>,
    n: int,
)
    requires
        is_history(rows, query, policy, p),
        is_history(rows, query, policy, q),
        0 <= n <= p.len(),
        n <= q.len(),
    ensures
        forall|i: int| 0 <= i < n ==> p[i] == q[i],
    decreases n,
{
    if n > 0 {
        lemma_history_prefix(rows, query, policy, p, q, n - 1);
        let a = p[n - 1];
        let b = q[n - 1];
        if a != b {
            lemma_precedes_order(rows, a, b, a);
            if precedes(rows, a, b) {
                lemma_history_misplaced(rows, query, policy, q, p, n - 1);
            } else {
                lemma_history_misplaced(rows, query, policy, p, q, n - 1);
            }
        }
    }
}

/// Where two histories agree before position `k`, the row that the second
/// has there is not taken before the row that the first has there.
proof fn lemma_history_misplaced(
    rows: Seq<MetricRow>,
    query: SeriesQuery,
    policy: ThresholdPolicy,
    p: Seq<int>,
    q: Seq<int>,
    k: int,
)
    requires
        is_history(rows, query, policy, p),
        is_history(rows, query, policy, q),
        0 <= k < p.len(),
        k < q.len(),
        forall|i: int| 0 <= i < k ==> p[i] == q[i],
        p[k] != q[k],
    ensures
        !precedes(rows, q[k], p[k]),
{
    let a = q[k];
    let b = p[k];
    lemma_precedes_order(rows, a, b, a);
    if p.contains(a) {
        let m = choose|m: int| 0 <= m < p.len() && p[m] == a;
        if m < k {
            assert(q[m] == a);
            assert(precedes(rows, q[m], q[k]));
        } else {
            assert(precedes(rows, p[k], p[m]));
        }
    } else {
        assert(is_eligible(rows[q[k]], query, policy.window));
        assert(precedes(rows, p[k], a));
    }
}

/// The history of a series is determined by the stored rows, the query and
/// the policy.
pub proof fn lemma_history_unique(
    rows: Seq<MetricRow>,
    query: SeriesQuery,
    policy: ThresholdPolicy,
    p: Seq<int>,
    q: Seq<int>,
)
    requires
        is_history(rows, query, policy, p),
        is_history(rows, query, policy, q),
    ensures
        p == q,
{
    if p.len() <= q.len() {
        lemma_history_prefix(rows, query, policy, p, q, p.len() as int);
        lemma_history_length(rows, query, policy, p, q);
    } else {
        lemma_history_prefix(rows, query, policy, q, p, q.len() as int);
        lemma_history_length(rows, query, policy, q, p);
    }
    assert(p =~= q);
}

/// A history of a series that begins with another is no longer than it.
proof fn lemma_history_length(
    rows: Seq<MetricRow>,
    query: SeriesQuery,
    policy: ThresholdPolicy,
    p: Seq<int>,
    q: Seq<int>,
)
    requires
        is_history(rows, query, policy, p),
        is_history(rows, query, policy, q),
        p.len() <= q.len(),
        forall|i: int| 0 <= i < p.len() ==> p[i] == q[i],
    ensures
        p.len() == q.len(),
{
    if p.len() < q.len() {
        let e = q[p.len() as int];
        assert(is_eligible(rows[q[p.len() as int]], query, policy.window));
        if p.contains(e) {
            let m = choose|m: int| 0 <= m < p.len() && p[m] == e;
            assert(q[m] == e);
            assert(precedes(rows, q[m], q[p.len() as int]));
        }
    }
}

/// Tells whether `a` is more recent than `b`.
pub fn newer(a: &MetricSample, b: &MetricSample) -> (result: bool)
    ensures
        result == is_newer(*a, *b),
{
    a.version_number > b.version_number || (a.version_number == b.version_number && (a.start_time
        > b.start_time || (a.start_time == b.start_time && a.iteration > b.iteration)))
}

/// Tells whether a stored measurement belongs to the series that is asked
/// for and to the period of `window` seconds before the evaluation.
pub fn eligible(row: &MetricRow, query: &SeriesQuery, window: u64) -> (result: bool)
    ensures
        result == is_eligible(*row, *query, window),
{
    let same_kind: bool = match (row.kind, query.kind) {
        (JsonPerfKind::Latency, JsonPerfKind::Latency) => true,
        (JsonPerfKind::Throughput, JsonPerfKind::Throughput) => true,
        (JsonPerfKind::Compute, JsonPerfKind::Compute) => true,
        (JsonPerfKind::Memory, JsonPerfKind::Memory) => true,
        (JsonPerfKind::Storage, JsonPerfKind::Storage) => true,
        _ => false,
    };
    let start: i128 = query.now as i128 - window as i128;
    row.branch_id == query.branch_id && row.testbed_id == query.testbed_id && row.benchmark_id
        == query.benchmark_id && same_kind && start <= row.sample.start_time as i128
        && row.sample.start_time < query.now
}

/// Whether the row at position `i` is still to be taken after the row at
/// `last` was.
pub open spec fn is_candidate(
    rows: Seq<MetricRow>,
    query: SeriesQuery,
    window: u64,
    last: Option<usize>,
    i: int,
) -> bool {
    &&& 0 <= i < rows.len()
    &&& is_eligible(rows[i], query, window)
    &&& last matches Some(l) ==> precedes(rows, l as int, i)
}

/// Finds the row to take next: among the eligible rows that come after the
/// one taken last, the one that comes before all others.
fn next_newest(rows: &Vec<MetricRow>, query: &SeriesQuery, window: u64, last: Option<usize>) -> (next:
    Option<usize>)
    requires
        last matches Some(l) ==> l < rows@.len(),
    ensures
        match next {
            Some(i) => {
                &&& is_candidate(rows@, *query, window, last, i as int)
                &&& forall|j: int|
                    is_candidate(rows@, *query, window, last, j) && j != i ==> precedes(rows@, i as int, j)
            },
            None => forall|j: int| !is_candidate(rows@, *query, window, last, j),
        },
{
    let mut best: Option<usize> = None;
    let mut j: usize = 0;
    while j < rows.len()
        invariant
            0 <= j <= rows@.len(),
            last matches Some(l) ==> l < rows@.len(),
            match best {
                Some(i) => {
                    &&& i < j
                    &&& is_candidate(rows@, *query, window, last, i as int)
                    &&& forall|c: int|
                        0 <= c < j && is_candidate(rows@, *query, window, last, c) && c != i ==> precedes(
                            rows@,
                            i as int,
                            c,
                        )
                },
                None => forall|c: int| 0 <= c < j ==> !is_candidate(rows@, *query, window, last, c),
            },
        decreases rows@.len() - j,
    {
        let after_last: bool = match last {
            Some(l) => newer(&rows[l].sample, &rows[j].sample) || (!newer(
                &rows[j].sample,
                &rows[l].sample,
            ) && l < j),
            None => true,
        };
        if eligible(&rows[j], query, window) && after_last {
            let better: bool = match best {
                Some(i) => newer(&rows[j].sample, &rows[i].sample),
                None => true,
            };
            if better {
                proof {
                    if best is Some {
                        let i = best.unwrap() as int;
                        assert forall|c: int|
                            0 <= c < j + 1 && is_candidate(rows@, *query, window, last, c) && c
                                != j implies precedes(rows@, j as int, c) by {
                            lemma_precedes_order(rows@, j as int, i, c);
                        }
                    }
                }
                best = Some(j);
            }
        }
        j = j + 1;
    }
    best
}

impl MetricsData {
    /// Gathers the history of a series from the stored measurements: the
    /// measured quantities of the eligible rows, the most recent first, and
    /// of these at most as many as the policy uses.
    ///
    /// There is no history, rather than an empty one, where no row is
    /// eligible.
    pub fn new(rows: &Vec<MetricRow>, query: &SeriesQuery, policy: &ThresholdPolicy) -> (result:
        Option<MetricsData>)
        ensures
            match result {
                Some(history) => history.data@.len() > 0 && exists|picked: Seq<int>|
                    #[trigger] is_history(rows@, *query, *policy, picked)
                        && history.data@ == values_at(rows@, picked),
                None => policy.max_sample_size == 0 || forall|e: int|
                    0 <= e < rows@.len() ==> !is_eligible(#[trigger] rows@[e], *query, policy.window),
            },
    {
        let limit: usize = policy.max_sample_size as usize;
        let mut data: Vec<i64> = Vec::new();
        let mut last: Option<usize> = None;
        let mut open: bool = true;
        let ghost mut picked: Seq<int> = Seq::empty();
        while open && data.len() < limit
            invariant
                limit == policy.max_sample_size,
                data@.len() == picked.len(),
                data@.len() <= limit,
                data@ == values_at(rows@, picked),
                match last {
                    Some(l) => picked.len() > 0 && picked[picked.len() - 1] == l && l < rows@.len(),
                    None => picked.len() == 0,
                },
                forall|k: int|
                    0 <= k < picked.len() ==> 0 <= #[trigger] picked[k] < rows@.len() && is_eligible(
                        rows@[picked[k]],
                        *query,
                        policy.window,
                    ),
                forall|j: int, k: int|
                    0 <= j < k < picked.len() ==> precedes(
                        rows@,
                        #[trigger] picked[j],
                        #[trigger] picked[k],
                    ),
                forall|e: int|
                    0 <= e < rows@.len() && is_eligible(#[trigger] rows@[e], *query, policy.window)
                        && !picked.contains(e) ==> open && is_candidate(rows@, *query, policy.window, last, e),
            decreases limit - data@.len() + (if open { 1int } else { 0int }),
        {
            match next_newest(rows, query, policy.window, last) {
                Some(i) => {
                    proof {
                        let ghost extended = picked.push(i as int);
                        assert forall|j: int, k: int| 0 <= j < k < extended.len() implies precedes(
                            rows@,
                            #[trigger] extended[j],
                            #[trigger] extended[k],
                        ) by {
                            if k == picked.len() && last is Some {
                                lemma_precedes_order(
                                    rows@,
                                    picked[j],
                                    picked[picked.len() - 1],
                                    i as int,
                                );
                            }
                        }
                        assert forall|e: int|
                            0 <= e < rows@.len() && is_eligible(#[trigger] rows@[e], *query, policy.window)
                                && !extended.contains(e) implies is_candidate(
                            rows@,
                            *query,
                            policy.window,
                            Some(i),
                            e,
                        ) by {
                            assert(extended[picked.len() as int] == i);
                            assert(e != i);
                            if picked.contains(e) {
                                let k = choose|k: int| 0 <= k < picked.len() && picked[k] == e;
                                assert(extended[k] == e);
                            }
                        }
                        assert(values_at(rows@, extended) =~= data@.push(rows@[i as int].sample.value));
                        picked = extended;
                    }
                    data.push(rows[i].sample.value);
                    last = Some(i);
                },
                None => {
                    open = false;
                },
            }
        }
        proof {
            assert forall|e: int|
                0 <= e < rows@.len() && is_eligible(#[trigger] rows@[e], *query, policy.window) && !picked.contains(
                    e,
                ) implies picked.len() == limit && forall|k: int|
                0 <= k < picked.len() ==> precedes(rows@, #[trigger] picked[k], e) by {
                assert(is_candidate(rows@, *query, policy.window, last, e));
                assert forall|k: int| 0 <= k < picked.len() implies precedes(
                    rows@,
                    #[trigger] picked[k],
                    e,
                ) by {
                    lemma_precedes_order(rows@, picked[k], picked[picked.len() - 1], e);
                }
            }
        }
        if data.len() == 0 {
            None
        } else {
            proof {
                assert(is_history(rows@, *query, *policy, picked));
            }
            Some(MetricsData { data })
        }
    }
}

/// Evaluates a new measurement against the stored measurements of its
/// series: the history is gathered under the policy, and the measurement
/// is judged against it.
///
/// The stored rows must not hold the measurement itself.
pub fn evaluate_stored(
    value: i64,
    rows: &Vec<MetricRow>,
    query: &SeriesQuery,
    policy: &ThresholdPolicy,
) -> (result: Result<Verdict, EngineError>)
    requires
        policy.wf(),
    ensures
        exists|picked: Seq<int>|
            #[trigger] is_history(rows@, *query, *policy, picked) && result
                == spec_evaluate(value, values_at(rows@, picked), *policy),
{
    match MetricsData::new(rows, query, policy) {
        Some(history) => evaluate(value, history.data.as_slice(), policy),
        None => {
            proof {
                let none = Seq::<int>::empty();
                assert(is_history(rows@, *query, *policy, none));
                assert(values_at(rows@, none).len() == 0);
            }
            Ok(Verdict::NoBaseline)
        },
    }
}

} // verus!
