use bencher::baseline::{Baseline, BaselineError};
use bencher::boundary::Boundary;
use bencher::critical::{t_critical, z_critical};
use bencher::metrics::MetricsData;
use bencher::numeric::{div_floor, isqrt};
use bencher::threshold::{ConfigError, TestKind, ThresholdPolicy};
use bencher::verdict::{
    classify, evaluate, evaluate_configured, evaluate_fetched, EngineError, Side, StoreError,
    Verdict,
};

#[test]
fn floor_division_rounds_down() {
    assert_eq!(div_floor(7, 2), 3);
    assert_eq!(div_floor(-7, 2), -4);
    assert_eq!(div_floor(-8, 2), -4);
    assert_eq!(div_floor(0, 5), 0);
    assert_eq!(div_floor(i128::MIN, 1), i128::MIN);
}

#[test]
fn integer_square_root() {
    assert_eq!(isqrt(0), 0);
    assert_eq!(isqrt(1), 1);
    assert_eq!(isqrt(3), 1);
    assert_eq!(isqrt(4), 2);
    assert_eq!(isqrt(2_000_000_000_000), 1_414_213);
    assert_eq!(isqrt(u128::MAX), u64::MAX);
    assert_eq!(isqrt((u64::MAX as u128) * (u64::MAX as u128) - 1), u64::MAX - 1);
}

#[test]
fn mean_of_measurements() {
    assert_eq!(MetricsData::mean(&[]), None);
    assert_eq!(MetricsData::mean(&[7]), Some(7));
    assert_eq!(MetricsData::mean(&[8, 9, 10, 11, 12]), Some(10));
    assert_eq!(MetricsData::mean(&[1, 2]), Some(1));
    assert_eq!(MetricsData::mean(&[-1, -2]), Some(-2));
    assert_eq!(MetricsData::mean(&[i64::MAX, i64::MAX, i64::MAX]), Some(i64::MAX));
    assert_eq!(MetricsData::mean(&[i64::MIN, i64::MIN]), Some(i64::MIN));
}

#[test]
fn variance_is_population_variance() {
    assert_eq!(MetricsData::variance(10, &[8, 9, 10, 11, 12]), Some(2));
    assert_eq!(MetricsData::variance(0, &[3, 4]), Some(12));
    assert_eq!(MetricsData::variance(5, &[]), None);
    assert_eq!(MetricsData::std_deviation(10, &[8, 9, 10, 11, 12]), Some(1));
    assert_eq!(MetricsData::std_deviation(0, &[3, 4]), Some(3));
    assert_eq!(MetricsData::std_deviation(0, &[]), None);
}

#[test]
fn variance_is_never_negative() {
    let series: [&[i64]; 4] = [&[1], &[-5, 5], &[i64::MIN, 0], &[3, 3, 3]];
    for data in series {
        let mean = MetricsData::mean(data).unwrap();
        // The type of the result excludes a negative variance; what is left
        // to see is that one is returned.
        assert!(MetricsData::variance(mean, data).is_some());
    }
}

#[test]
fn single_measurement_has_no_spread() {
    for v in [i64::MIN, -3, 0, 42, i64::MAX] {
        assert_eq!(MetricsData::mean(&[v]), Some(v));
        assert_eq!(MetricsData::variance(v, &[v]), Some(0));
        assert_eq!(MetricsData::std_deviation(v, &[v]), Some(0));
    }
}

#[test]
fn variance_that_does_not_fit() {
    // Each squared deviation is (2^64 - 1)^2; two of them exceed 128 bits.
    assert_eq!(
        MetricsData::variance(i64::MAX, &[i64::MIN]),
        Some((u64::MAX as u128) * (u64::MAX as u128))
    );
    assert_eq!(MetricsData::variance(i64::MAX, &[i64::MIN, i64::MIN]), None);
    assert_eq!(MetricsData::std_deviation(i64::MAX, &[i64::MIN, i64::MIN]), None);
}

#[test]
fn baseline_uses_the_newest_measurements() {
    let history = [10, 20, 30, 1000, 2000];
    let baseline = Baseline::compute(&history, 1, 3).unwrap();
    assert_eq!(baseline, Baseline { mean: 20, variance: 66, std_dev: 8, sample_count: 3 });
    let all = Baseline::compute(&history, 5, 5).unwrap();
    assert_eq!(all.sample_count, 5);
    assert_eq!(all.mean, 612);
    assert_eq!(Baseline::compute(&history, 6, 10), Err(BaselineError::Insufficient));
    assert_eq!(Baseline::compute(&history, 1, 0), Err(BaselineError::Insufficient));
}

#[test]
fn baseline_overflow() {
    // Around a mean of -1 every squared deviation is close to 2^126: four
    // of them fit in 128 bits, six do not.
    let history = [i64::MAX, i64::MIN, i64::MAX, i64::MIN, i64::MAX, i64::MIN];
    assert_eq!(
        Baseline::compute(&history, 1, 4),
        Ok(Baseline {
            mean: -1,
            variance: 85070591730234615856620279821087277056,
            std_dev: 9223372036854775807,
            sample_count: 4,
        })
    );
    assert_eq!(Baseline::compute(&history, 1, 10), Err(BaselineError::Overflow));
    let policy = ThresholdPolicy::new(TestKind::ZScore, 1, 10, 60, None, Some(50_000)).unwrap();
    assert_eq!(evaluate(0, &history, &policy), Err(EngineError::Overflow));
}

#[test]
fn normal_critical_values() {
    assert_eq!(z_critical(1), 3_719_016);
    assert_eq!(z_critical(100), 3_719_016);
    assert_eq!(z_critical(1_000), 3_090_232);
    assert_eq!(z_critical(25_000), 1_959_964);
    assert_eq!(z_critical(50_000), 1_644_854);
    assert_eq!(z_critical(75_000), 1_440_246);
    assert_eq!(z_critical(100_000), 1_281_552);
    assert_eq!(z_critical(450_000), 125_661);
    assert_eq!(z_critical(500_000), 0);
    assert_eq!(z_critical(500_001), -3);
    assert_eq!(z_critical(900_000), -1_281_552);
    assert_eq!(z_critical(950_000), -1_644_854);
    assert_eq!(z_critical(999_999), -3_719_016);
}

#[test]
fn student_critical_values() {
    assert_eq!(t_critical(50_000, 0), 6_313_752);
    assert_eq!(t_critical(50_000, 1), 6_313_752);
    assert_eq!(t_critical(50_000, 3), 2_353_363);
    assert_eq!(t_critical(25_000, 10), 2_228_139);
    assert_eq!(t_critical(25_000, 35), 2_042_272);
    assert_eq!(t_critical(25_000, 40), 2_021_075);
    assert_eq!(t_critical(50_000, 1_000), 1_646_379);
    assert_eq!(t_critical(50_000, 4_000_000_000), 1_646_379);
    assert_eq!(t_critical(75_000, 7), 1_617_733);
    assert_eq!(t_critical(950_000, 3), -2_353_363);
    assert_eq!(t_critical(100, 1), 3_183_098_757);
}

#[test]
fn critical_values_never_rise_with_the_tail() {
    let mut p: u32 = 1;
    let mut z = z_critical(p);
    let mut t = t_critical(p, 4);
    while p < 999_000 {
        p += 997;
        let next_z = z_critical(p);
        let next_t = t_critical(p, 4);
        assert!(next_z <= z);
        assert!(next_t <= t);
        z = next_z;
        t = next_t;
    }
}

#[test]
fn student_is_at_least_normal() {
    for p in [1, 100, 1_234, 50_000, 77_777, 250_000, 499_999, 500_000] {
        let z = z_critical(p);
        let mut last = t_critical(p, 0);
        for df in [1, 2, 3, 4, 10, 29, 30, 31, 45, 119, 120, 999, 1_000, 1_000_000] {
            let t = t_critical(p, df);
            assert!(t >= z);
            assert!(t <= last);
            last = t;
        }
    }
}

#[test]
fn tails_mirror_each_other() {
    for p in [1, 100, 1_234, 50_000, 77_777, 250_000, 499_999, 500_000] {
        assert_eq!(z_critical(1_000_000 - p), -z_critical(p));
        assert_eq!(t_critical(1_000_000 - p, 6), -t_critical(p, 6));
    }
}

#[test]
fn lower_tail_widens_the_boundary() {
    let baseline = Baseline { mean: 1_000, variance: 10_000, std_dev: 100, sample_count: 8 };
    for kind in [TestKind::ZScore, TestKind::TTest] {
        let wide = ThresholdPolicy::new(kind, 1, 10, 60, Some(10_000), Some(10_000)).unwrap();
        let tight = ThresholdPolicy::new(kind, 1, 10, 60, Some(100_000), Some(100_000)).unwrap();
        let wide = Boundary::compute(&wide, &baseline).unwrap();
        let tight = Boundary::compute(&tight, &baseline).unwrap();
        assert!(wide.upper.unwrap() >= tight.upper.unwrap());
        assert!(wide.lower.unwrap() <= tight.lower.unwrap());
    }
    let z = ThresholdPolicy::new(TestKind::ZScore, 1, 10, 60, Some(10_000), Some(100_000)).unwrap();
    // 2.326348 * 100 = 232.6348, 1.281552 * 100 = 128.1552
    assert_eq!(
        Boundary::compute(&z, &baseline),
        Ok(Boundary { lower: Some(768), upper: Some(1_128) })
    );
}

#[test]
fn boundary_has_the_configured_sides_only() {
    let baseline = Baseline { mean: 50, variance: 16, std_dev: 4, sample_count: 4 };
    let left = ThresholdPolicy::new(TestKind::ZScore, 1, 10, 60, Some(50_000), None).unwrap();
    let right = ThresholdPolicy::new(TestKind::TTest, 1, 10, 60, None, Some(50_000)).unwrap();
    let left = Boundary::compute(&left, &baseline).unwrap();
    let right = Boundary::compute(&right, &baseline).unwrap();
    // 1.644854 * 4 = 6.579416
    assert_eq!(left, Boundary { lower: Some(44), upper: None });
    // standard error sqrt(16 / 4) = 2; 2.353363 * 2 = 4.706726
    assert_eq!(right, Boundary { lower: None, upper: Some(54) });
}

#[test]
fn single_measurement_gives_a_degenerate_boundary() {
    let policy = ThresholdPolicy::new(TestKind::TTest, 1, 10, 60, Some(50_000), Some(50_000)).unwrap();
    let baseline = Baseline::compute(&[77], 1, 10).unwrap();
    assert_eq!(
        Boundary::compute(&policy, &baseline),
        Ok(Boundary { lower: Some(77), upper: Some(77) })
    );
    assert_eq!(evaluate(77, &[77], &policy), Ok(Verdict::Normal));
    assert_eq!(
        evaluate(78, &[77], &policy),
        Ok(Verdict::Regressed { side: Side::Upper, bound: 77, value: 78 })
    );
    assert_eq!(
        evaluate(76, &[77], &policy),
        Ok(Verdict::Regressed { side: Side::Lower, bound: 77, value: 76 })
    );
}

#[test]
fn limits_are_exclusive() {
    let boundary = Boundary { lower: Some(-5), upper: Some(5) };
    assert_eq!(classify(5, &boundary), Ok(Verdict::Normal));
    assert_eq!(classify(-5, &boundary), Ok(Verdict::Normal));
    assert_eq!(classify(0, &boundary), Ok(Verdict::Normal));
    assert_eq!(
        classify(6, &boundary),
        Ok(Verdict::Regressed { side: Side::Upper, bound: 5, value: 6 })
    );
    assert_eq!(
        classify(-6, &boundary),
        Ok(Verdict::Regressed { side: Side::Lower, bound: -5, value: -6 })
    );
    assert_eq!(classify(i64::MAX, &Boundary { lower: None, upper: None }), Ok(Verdict::Normal));
}

#[test]
fn crossed_limits_are_a_configuration_error() {
    let crossed = Boundary { lower: Some(10), upper: Some(0) };
    assert_eq!(classify(5, &crossed), Err(ConfigError::CrossedBounds));
    assert_eq!(
        classify(11, &crossed),
        Ok(Verdict::Regressed { side: Side::Upper, bound: 0, value: 11 })
    );
    // Tail probabilities above one half put each limit on the far side of
    // the mean.
    let policy = ThresholdPolicy::new(TestKind::ZScore, 1, 10, 60, Some(900_000), Some(900_000)).unwrap();
    let baseline = Baseline::compute(&[0, 20], 1, 10).unwrap();
    assert_eq!(Boundary::compute(&policy, &baseline), Err(ConfigError::CrossedBounds));
    assert_eq!(
        evaluate(10, &[0, 20], &policy),
        Err(EngineError::Config(ConfigError::CrossedBounds))
    );
}

#[test]
fn policy_validation() {
    let ok = ThresholdPolicy::new(TestKind::ZScore, 3, 30, 3_600, Some(50_000), None);
    assert_eq!(
        ok,
        Ok(ThresholdPolicy {
            test_kind: TestKind::ZScore,
            min_sample_size: 3,
            max_sample_size: 30,
            window: 3_600,
            left_side: Some(50_000),
            right_side: None,
        })
    );
    assert!(ok.unwrap().is_valid());
    let new = |min, max, left, right| ThresholdPolicy::new(TestKind::TTest, min, max, 0, left, right);
    assert_eq!(new(0, 5, Some(1), None), Err(ConfigError::SampleSize));
    assert_eq!(new(6, 5, Some(1), None), Err(ConfigError::SampleSize));
    assert_eq!(new(0, 0, None, None), Err(ConfigError::SampleSize));
    assert_eq!(new(5, 5, None, None), Err(ConfigError::NoSide));
    assert_eq!(new(1, 5, Some(0), None), Err(ConfigError::TailProbability));
    assert_eq!(new(1, 5, None, Some(1_000_000)), Err(ConfigError::TailProbability));
    assert_eq!(new(1, 5, Some(500_000), Some(0)), Err(ConfigError::TailProbability));
    assert!(new(1, 1, Some(1), Some(999_999)).is_ok());
    let invalid = ThresholdPolicy {
        test_kind: TestKind::ZScore,
        min_sample_size: 2,
        max_sample_size: 1,
        window: 0,
        left_side: Some(5),
        right_side: None,
    };
    assert!(!invalid.is_valid());
}

#[test]
fn evaluation_is_repeatable() {
    let history = [103, 99, 101, 100, 97, 100];
    let policy = ThresholdPolicy::new(TestKind::TTest, 2, 5, 60, Some(25_000), Some(25_000)).unwrap();
    for value in [0, 95, 100, 105, 1_000] {
        assert_eq!(evaluate(value, &history, &policy), evaluate(value, &history, &policy));
    }
}

#[test]
fn no_policy_is_no_verdict() {
    let policy = ThresholdPolicy::new(TestKind::ZScore, 3, 10, 60, None, Some(50_000)).unwrap();
    assert_eq!(evaluate_configured(11, &[10, 10, 10], None), Ok(None));
    assert_eq!(evaluate_configured(11, &[10], Some(&policy)), Ok(Some(Verdict::NoBaseline)));
    assert_eq!(evaluate_configured(10, &[10, 10, 10], Some(&policy)), Ok(Some(Verdict::Normal)));
}

#[test]
fn failed_read_is_an_error() {
    let policy = ThresholdPolicy::new(TestKind::ZScore, 3, 10, 60, None, Some(50_000)).unwrap();
    assert_eq!(
        evaluate_fetched(5, Err(StoreError::History), &policy),
        Err(EngineError::Store(StoreError::History))
    );
    assert_eq!(
        evaluate_fetched(5, Err(StoreError::Policy), &policy),
        Err(EngineError::Store(StoreError::Policy))
    );
    assert_eq!(evaluate_fetched(5, Ok(vec![1]), &policy), Ok(Verdict::NoBaseline));
    assert_eq!(
        evaluate_fetched(11, Ok(vec![10, 10, 10]), &policy),
        Ok(Verdict::Regressed { side: Side::Upper, bound: 10, value: 11 })
    );
}
