use bencher::metrics::MetricsData;
use bencher::perf::JsonPerfKind;
use bencher::series::{eligible, evaluate_stored, newer, MetricRow, MetricSample, SeriesQuery};
use bencher::threshold::{TestKind, ThresholdPolicy};
use bencher::verdict::{Side, Verdict};

fn sample(value: i64, version_number: u32, start_time: i64, iteration: u32) -> MetricSample {
    MetricSample { value, version_number, start_time, iteration }
}

fn row(value: i64, version_number: u32, start_time: i64, iteration: u32) -> MetricRow {
    MetricRow {
        branch_id: 1,
        testbed_id: 2,
        benchmark_id: 3,
        kind: JsonPerfKind::Latency,
        sample: sample(value, version_number, start_time, iteration),
    }
}

fn query(now: i64) -> SeriesQuery {
    SeriesQuery { branch_id: 1, testbed_id: 2, benchmark_id: 3, kind: JsonPerfKind::Latency, now }
}

fn policy(min: u32, max: u32, window: u64) -> ThresholdPolicy {
    ThresholdPolicy::new(TestKind::ZScore, min, max, window, None, Some(50_000)).unwrap()
}

#[test]
fn order_of_measurements() {
    let base = sample(0, 5, 100, 2);
    assert!(newer(&sample(0, 6, 0, 0), &base));
    assert!(newer(&sample(0, 5, 101, 0), &base));
    assert!(newer(&sample(0, 5, 100, 3), &base));
    assert!(!newer(&base, &base));
    assert!(!newer(&sample(9, 5, 100, 2), &base));
    assert!(!newer(&sample(0, 4, 1_000, 9), &base));
    assert!(!newer(&sample(0, 5, 99, 9), &base));
    assert!(!newer(&sample(0, 5, 100, 1), &base));
}

#[test]
fn eligibility() {
    let q = query(1_000);
    assert!(eligible(&row(0, 1, 900, 0), &q, 100));
    assert!(eligible(&row(0, 1, 999, 0), &q, 100));
    assert!(!eligible(&row(0, 1, 1_000, 0), &q, 100));
    assert!(!eligible(&row(0, 1, 899, 0), &q, 100));
    assert!(!eligible(&row(0, 1, 999, 0), &q, 0));
    let mut other = row(0, 1, 950, 0);
    other.branch_id = 9;
    assert!(!eligible(&other, &q, 100));
    let mut other = row(0, 1, 950, 0);
    other.testbed_id = 9;
    assert!(!eligible(&other, &q, 100));
    let mut other = row(0, 1, 950, 0);
    other.benchmark_id = 9;
    assert!(!eligible(&other, &q, 100));
    let mut other = row(0, 1, 950, 0);
    other.kind = JsonPerfKind::Memory;
    assert!(!eligible(&other, &q, 100));
    // The period may reach back beyond every time that can be written.
    assert!(eligible(&row(0, 1, i64::MIN, 0), &query(i64::MIN + 1), u64::MAX));
    assert!(eligible(&row(0, 1, i64::MAX - 1, 0), &query(i64::MAX), 1));
}

#[test]
fn history_is_newest_first() {
    let rows = vec![
        row(10, 1, 910, 0),
        row(20, 3, 920, 0),
        row(30, 2, 990, 1),
        row(40, 2, 990, 2),
        row(50, 2, 930, 7),
        row(60, 9, 100, 0),
        row(70, 9, 1_000, 0),
    ];
    let history = MetricsData::new(&rows, &query(1_000), &policy(1, 10, 100)).unwrap();
    assert_eq!(history.data, vec![20, 40, 30, 50, 10]);
    let cut = MetricsData::new(&rows, &query(1_000), &policy(1, 3, 100)).unwrap();
    assert_eq!(cut.data, vec![20, 40, 30]);
    let narrow = MetricsData::new(&rows, &query(1_000), &policy(1, 10, 10)).unwrap();
    assert_eq!(narrow.data, vec![40, 30]);
}

#[test]
fn equally_recent_rows_keep_their_order() {
    let rows = vec![row(1, 4, 950, 0), row(2, 4, 950, 0), row(3, 5, 950, 0), row(4, 4, 950, 0)];
    let history = MetricsData::new(&rows, &query(1_000), &policy(1, 10, 100)).unwrap();
    assert_eq!(history.data, vec![3, 1, 2, 4]);
    let cut = MetricsData::new(&rows, &query(1_000), &policy(1, 2, 100)).unwrap();
    assert_eq!(cut.data, vec![3, 1]);
}

#[test]
fn no_history_without_eligible_rows() {
    let rows = vec![row(1, 1, 100, 0), row(2, 1, 2_000, 0)];
    assert!(MetricsData::new(&rows, &query(1_000), &policy(1, 10, 100)).is_none());
    assert!(MetricsData::new(&Vec::new(), &query(1_000), &policy(1, 10, 100)).is_none());
    let nothing = ThresholdPolicy {
        test_kind: TestKind::ZScore,
        min_sample_size: 0,
        max_sample_size: 0,
        window: 100,
        left_side: None,
        right_side: None,
    };
    assert!(MetricsData::new(&vec![row(1, 1, 950, 0)], &query(1_000), &nothing).is_none());
}

#[test]
fn evaluation_over_stored_rows() {
    let rows = vec![
        row(10, 1, 910, 0),
        row(10, 2, 920, 0),
        row(10, 3, 930, 0),
        row(500, 1, 100, 0),
    ];
    let q = query(1_000);
    assert_eq!(evaluate_stored(10, &rows, &q, &policy(3, 10, 100)), Ok(Verdict::Normal));
    assert_eq!(
        evaluate_stored(11, &rows, &q, &policy(3, 10, 100)),
        Ok(Verdict::Regressed { side: Side::Upper, bound: 10, value: 11 })
    );
    assert_eq!(evaluate_stored(11, &rows, &q, &policy(4, 10, 100)), Ok(Verdict::NoBaseline));
    assert_eq!(evaluate_stored(11, &Vec::new(), &q, &policy(1, 10, 100)), Ok(Verdict::NoBaseline));
    // A longer window lets the old measurement in: mean 132, deviation 212.
    assert_eq!(evaluate_stored(11, &rows, &q, &policy(4, 10, 1_000)), Ok(Verdict::Normal));
}
