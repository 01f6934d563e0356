use bencher::baseline::{Baseline, BaselineError};
use bencher::boundary::Boundary;
use bencher::critical::{t_critical, z_critical};
use bencher::threshold::{TestKind, ThresholdPolicy};
use bencher::verdict::{evaluate, Side, Verdict};

const UNIT: i64 = 1_000_000;

fn scaled(values: &[i64]) -> Vec<i64> {
    values.iter().map(|v| v * UNIT).collect()
}

fn policy(kind: TestKind, min: u32, left: Option<u32>, right: Option<u32>) -> ThresholdPolicy {
    ThresholdPolicy::new(kind, min, 100, 3600, left, right).unwrap()
}

#[test]
fn z_score_flat_history_upper_only() {
    let history = scaled(&[10, 10, 10, 10, 10]);
    let policy = policy(TestKind::ZScore, 3, None, Some(50_000));
    let baseline = Baseline::compute(&history, 3, 100).unwrap();
    assert_eq!(baseline.mean, 10 * UNIT);
    assert_eq!(baseline.std_dev, 0);
    let boundary = Boundary::compute(&policy, &baseline).unwrap();
    assert_eq!(boundary, Boundary { lower: None, upper: Some(10_000_000) });
    assert_eq!(
        evaluate(10_010_000, &history, &policy),
        Ok(Verdict::Regressed { side: Side::Upper, bound: 10_000_000, value: 10_010_000 })
    );
    assert_eq!(evaluate(10_000_000, &history, &policy), Ok(Verdict::Normal));
}

#[test]
fn z_score_two_sided() {
    let history = scaled(&[8, 9, 10, 11, 12]);
    let policy = policy(TestKind::ZScore, 3, Some(100_000), Some(100_000));
    let baseline = Baseline::compute(&history, 3, 100).unwrap();
    assert_eq!(baseline.mean, 10 * UNIT);
    assert_eq!(baseline.variance, 2 * (UNIT as u128) * (UNIT as u128));
    assert_eq!(baseline.std_dev, 1_414_213);
    assert_eq!(baseline.sample_count, 5);
    assert_eq!(z_critical(100_000), 1_281_552);
    let boundary = Boundary::compute(&policy, &baseline).unwrap();
    assert_eq!(boundary.lower, Some(8_187_613));
    assert_eq!(boundary.upper, Some(11_812_387));
    assert_eq!(
        evaluate(12 * UNIT, &history, &policy),
        Ok(Verdict::Regressed { side: Side::Upper, bound: 11_812_387, value: 12 * UNIT })
    );
    assert_eq!(evaluate(9 * UNIT, &history, &policy), Ok(Verdict::Normal));
    assert_eq!(
        evaluate(8 * UNIT, &history, &policy),
        Ok(Verdict::Regressed { side: Side::Lower, bound: 8_187_613, value: 8 * UNIT })
    );
}

#[test]
fn insufficient_history_is_no_baseline() {
    let history = scaled(&[5]);
    for kind in [TestKind::ZScore, TestKind::TTest] {
        let policy = policy(kind, 3, Some(50_000), Some(50_000));
        for value in [i64::MIN, -1, 0, 5 * UNIT, i64::MAX] {
            assert_eq!(evaluate(value, &history, &policy), Ok(Verdict::NoBaseline));
        }
    }
    assert_eq!(Baseline::compute(&history, 3, 100), Err(BaselineError::Insufficient));
    assert_eq!(Baseline::compute(&[], 0, 100), Err(BaselineError::Insufficient));
}

#[test]
fn t_test_against_tables() {
    // Four measurements, three degrees of freedom.
    let history = scaled(&[8, 10, 10, 12]);
    assert_eq!(t_critical(50_000, 3), 2_353_363);
    assert_eq!(z_critical(50_000), 1_644_854);
    assert!(t_critical(50_000, 3) > z_critical(50_000));
    let baseline = Baseline::compute(&history, 3, 100).unwrap();
    assert_eq!(baseline.mean, 10 * UNIT);
    assert_eq!(baseline.variance, 2 * (UNIT as u128) * (UNIT as u128));
    assert_eq!(baseline.std_dev, 1_414_213);
    let t = Boundary::compute(&policy(TestKind::TTest, 3, None, Some(50_000)), &baseline).unwrap();
    let z = Boundary::compute(&policy(TestKind::ZScore, 3, None, Some(50_000)), &baseline).unwrap();
    // standard error: sqrt(2 / 4) = 0.707106; 2.353363 * 0.707106 = 1.664077
    assert_eq!(t.upper, Some(11_664_077));
    // 1.644854 * 1.414213 = 2.326173
    assert_eq!(z.upper, Some(12_326_173));
}
