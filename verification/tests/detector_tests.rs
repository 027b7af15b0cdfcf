use crypto_monitor::anomaly::{AnomalySeverity, PriceAnomalyConfig, VolumeAnomalyConfig};
use crypto_monitor::detector::{AnomalyDetector, PriceAnomalyDetector, VolumeAnomalyDetector};
use crypto_monitor::event::AnomalyType;
use crypto_monitor::window::{TimeSeriesData, MAX_VALUE};

const UNIT: i64 = 1_000_000;

fn at(second: i64, value: i64) -> TimeSeriesData {
    TimeSeriesData { timestamp: second * 1000, value }
}

fn volume_detector() -> VolumeAnomalyDetector {
    VolumeAnomalyDetector::new(VolumeAnomalyConfig::default(), "BTC/USDT".to_string(), "Binance".to_string())
}

fn price_detector() -> PriceAnomalyDetector {
    PriceAnomalyDetector::new(PriceAnomalyConfig::default(), "BTC/USDT".to_string(), "Binance".to_string())
}

#[test]
fn default_configs() {
    let v = VolumeAnomalyConfig::default();
    assert_eq!(v.z_score_threshold, 3000);
    assert_eq!(v.min_percentage_change, 20_000);
    assert_eq!(v.window_size, 60);
    assert_eq!(v.min_samples, 30);
    let p = PriceAnomalyConfig::default();
    assert_eq!(p.percentage_threshold, 500);
    assert_eq!(p.z_score_threshold, 3000);
    assert_eq!(p.window_size, 60);
    assert_eq!(p.min_samples, 30);
}

#[test]
fn volume_spike_after_steady_volumes() {
    let mut d = volume_detector();
    for t in 0..31 {
        assert!(d.detect_with_id(&at(t, UNIT), 1).is_none(), "no anomaly at t = {}", t);
    }
    let a = d.detect_with_id(&at(31, 20 * UNIT), 77).expect("a spike at t = 31");
    assert_eq!(a.id, 77);
    assert_eq!(a.timestamp, 31_000);
    assert_eq!(a.symbol, "BTC/USDT");
    assert_eq!(a.exchange, "Binance");
    assert_eq!(a.anomaly_type, AnomalyType::VolumeSpike);
    assert_eq!(a.severity, AnomalySeverity::Critical);
    assert!(a.severity.rank() >= AnomalySeverity::Medium.rank());
    assert!(a.metrics.z_score.unwrap() >= 3000);
    assert_eq!(a.metrics.z_score, Some(5567));
    assert_eq!(a.metrics.percentage_change, Some(115_490));
    assert_eq!(a.metrics.current_value, 20 * UNIT);
    assert_eq!(a.metrics.expected_value, 1_593_750);
    assert_eq!(a.metrics.deviation, 20 * UNIT - 1_593_750);
    assert_eq!(a.metrics.historical_avg, Some(1_593_750));
    assert_eq!(a.metrics.historical_std, Some(3_305_860));
    assert_eq!(
        a.description,
        "Volume anomaly detected for Binance/BTC/USDT: current volume 20000000 is 115490 bp above \
         average (1593750), z-score in thousandths: 5567"
    );
}

#[test]
fn volume_detector_is_silent_below_min_samples() {
    let mut d = volume_detector();
    for t in 0..28 {
        assert!(d.detect_with_id(&at(t, UNIT), 1).is_none());
    }
    // the 29th sample is a spike, but the window holds fewer than 30
    assert!(d.detect_with_id(&at(28, 1000 * UNIT), 1).is_none());
}

#[test]
fn volume_needs_both_thresholds() {
    // a z-score of 5.4 with a change of only 5.8%: the window is 29 values of 100 and one of 106
    let config = VolumeAnomalyConfig { z_score_threshold: 3000, min_percentage_change: 20_000, window_size: 60, min_samples: 30 };
    let mut d = VolumeAnomalyDetector::new(config, "S".to_string(), "E".to_string());
    for t in 0..29 {
        assert!(d.detect_with_id(&at(t, 100 * UNIT), 1).is_none());
    }
    assert!(d.detect_with_id(&at(29, 106 * UNIT), 1).is_none());
}

#[test]
fn volume_severity_follows_the_z_score() {
    // with thresholds at zero everything past min_samples is reported
    let config = VolumeAnomalyConfig { z_score_threshold: 0, min_percentage_change: 0, window_size: 60, min_samples: 4 };
    let mut d = VolumeAnomalyDetector::new(config, "S".to_string(), "E".to_string());
    for (t, v) in [10, 20, 30].iter().enumerate() {
        assert!(d.detect_with_id(&at(t as i64, *v), 1).is_none());
    }
    // 10, 20, 30, 40: z of 40 is 1.34
    let a = d.detect_with_id(&at(3, 40), 1).unwrap();
    assert_eq!(a.metrics.z_score, Some(1341));
    assert_eq!(a.severity, AnomalySeverity::Low);
}

#[test]
fn volume_below_average_is_described_so() {
    let config = VolumeAnomalyConfig { z_score_threshold: 0, min_percentage_change: 0, window_size: 60, min_samples: 2 };
    let mut d = VolumeAnomalyDetector::new(config, "S".to_string(), "E".to_string());
    assert!(d.detect_with_id(&at(0, 30), 1).is_none());
    let a = d.detect_with_id(&at(1, 10), 1).unwrap();
    assert_eq!(a.metrics.percentage_change, Some(-5000));
    assert_eq!(a.metrics.z_score, Some(-1000));
    assert_eq!(
        a.description,
        "Volume anomaly detected for E/S: current volume 10 is 5000 bp below average (20), z-score \
         in thousandths: -1000"
    );
}

#[test]
fn volume_out_of_range_is_passed_over() {
    let config = VolumeAnomalyConfig { z_score_threshold: 0, min_percentage_change: 0, window_size: 60, min_samples: 1 };
    let mut d = VolumeAnomalyDetector::new(config, "S".to_string(), "E".to_string());
    assert!(d.detect_with_id(&at(0, MAX_VALUE + 1), 1).is_none());
    // the sample did not join the window: the next one is the first
    let a = d.detect_with_id(&at(1, 5), 1).unwrap();
    assert_eq!(a.metrics.expected_value, 5);
}

#[test]
fn price_spike_after_steady_prices() {
    let mut d = price_detector();
    for t in 0..30 {
        assert!(d.detect_with_id(&at(t, 30_000 * UNIT), 1).is_none(), "no anomaly at sample {}", t + 1);
    }
    let a = d.detect_with_id(&at(30, 31_800 * UNIT), 9).expect("a spike at the 31st sample");
    assert_eq!(a.id, 9);
    assert_eq!(a.anomaly_type, AnomalyType::PriceSpike);
    assert_eq!(a.severity, AnomalySeverity::Medium);
    assert_eq!(a.metrics.percentage_change, Some(600));
    assert_eq!(a.metrics.z_score, Some(0));
    assert_eq!(a.metrics.current_value, 31_800 * UNIT);
    assert_eq!(a.metrics.expected_value, 30_000 * UNIT);
    assert_eq!(a.metrics.deviation, 1_800 * UNIT);
    assert_eq!(a.metrics.historical_std, Some(0));
    assert_eq!(a.timestamp, 30_000);
    assert_eq!(
        a.description,
        "Price anomaly detected for Binance/BTC/USDT: price moved 600 bp from 30000000000 to \
         31800000000, z-score in thousandths: 0"
    );
    // the price after is judged against a window that holds the spike
    assert!(d.detect_with_id(&at(31, 31_800 * UNIT), 1).is_some());
}

#[test]
fn price_detector_is_silent_below_min_samples() {
    let mut d = price_detector();
    for t in 0..28 {
        assert!(d.detect_with_id(&at(t, 100 * UNIT), 1).is_none());
    }
    // the 29th sample doubles the price, but with it the window holds only 29
    assert!(d.detect_with_id(&at(28, 200 * UNIT), 1).is_none());
    // the 30th is judged
    let a = d.detect_with_id(&at(29, 100 * UNIT), 1).expect("the 30th sample is judged");
    assert_eq!(a.metrics.percentage_change, Some(-5000));
}

#[test]
fn price_detector_counts_the_price_it_judges() {
    let config = PriceAnomalyConfig { percentage_threshold: 500, z_score_threshold: 3000, window_size: 4, min_samples: 2 };
    let mut d = PriceAnomalyDetector::new(config, "S".to_string(), "E".to_string());
    assert!(d.detect_with_id(&at(0, 100), 1).is_none());
    let a = d.detect_with_id(&at(1, 110), 5).expect("the second price is reported");
    assert_eq!(a.anomaly_type, AnomalyType::PriceSpike);
    assert_eq!(a.metrics.percentage_change, Some(1000));
    assert_eq!(a.severity, AnomalySeverity::Critical);
    assert_eq!(a.metrics.current_value, 110);
    assert_eq!(a.timestamp, 1000);
    // mean and z-score are taken over the prices before
    assert_eq!(a.metrics.expected_value, 100);
    assert_eq!(a.metrics.z_score, Some(0));
}

#[test]
fn price_detector_with_one_sample_asked_judges_the_first() {
    let config = PriceAnomalyConfig { percentage_threshold: 0, z_score_threshold: 1_000_000, window_size: 4, min_samples: 1 };
    let mut d = PriceAnomalyDetector::new(config, "S".to_string(), "E".to_string());
    let a = d.detect_with_id(&at(0, 100), 1).expect("a move of 0 reaches a threshold of 0");
    assert_eq!(a.metrics.percentage_change, Some(0));
    assert_eq!(a.metrics.expected_value, 0);
    assert_eq!(a.severity, AnomalySeverity::Low);
}

#[test]
fn price_severity_table() {
    let config = PriceAnomalyConfig { percentage_threshold: 100, z_score_threshold: 1_000_000, window_size: 60, min_samples: 1 };
    let cases = [(10_100, AnomalySeverity::Low), (10_500, AnomalySeverity::Medium), (10_699, AnomalySeverity::Medium),
        (10_700, AnomalySeverity::High), (10_999, AnomalySeverity::High), (11_000, AnomalySeverity::Critical),
        (9_000, AnomalySeverity::Critical), (9_400, AnomalySeverity::Medium)];
    for (next, severity) in cases {
        let mut d = PriceAnomalyDetector::new(config, "S".to_string(), "E".to_string());
        assert!(d.detect_with_id(&at(0, 10_000), 1).is_none());
        let a = d.detect_with_id(&at(1, next), 1).unwrap();
        assert_eq!(a.severity, severity, "moving to {}", next);
    }
}

#[test]
fn price_fires_on_the_z_score_alone() {
    let config = PriceAnomalyConfig { percentage_threshold: 1_000_000, z_score_threshold: 3000, window_size: 60, min_samples: 4 };
    let mut d = PriceAnomalyDetector::new(config, "S".to_string(), "E".to_string());
    for (t, v) in [1000, 1001, 1000, 1001].iter().enumerate() {
        assert!(d.detect_with_id(&at(t as i64, *v), 1).is_none());
    }
    // mean 1000.5, deviation 0.5: 1003 lies 5 deviations away
    let a = d.detect_with_id(&at(4, 1003), 1).unwrap();
    assert_eq!(a.metrics.z_score, Some(5000));
    assert_eq!(a.severity, AnomalySeverity::Critical);
}

#[test]
fn price_after_zero_has_no_move() {
    let config = PriceAnomalyConfig { percentage_threshold: 1, z_score_threshold: 1_000_000, window_size: 60, min_samples: 1 };
    let mut d = PriceAnomalyDetector::new(config, "S".to_string(), "E".to_string());
    assert!(d.detect_with_id(&at(0, 0), 1).is_none());
    assert!(d.detect_with_id(&at(1, 500), 1).is_none());
}

#[test]
fn reset_forgets_the_samples() {
    let mut d = volume_detector();
    for t in 0..31 {
        d.detect_with_id(&at(t, UNIT), 1);
    }
    d.reset();
    // after the reset the window is empty again: a spike is not judged
    assert!(d.detect_with_id(&at(31, 20 * UNIT), 1).is_none());
    let mut p = price_detector();
    for t in 0..30 {
        p.detect_with_id(&at(t, 100 * UNIT), 1);
    }
    p.reset();
    assert!(p.detect_with_id(&at(30, 200 * UNIT), 1).is_none());
}

#[test]
fn detect_gives_random_identifiers() {
    let config = VolumeAnomalyConfig { z_score_threshold: 0, min_percentage_change: 0, window_size: 60, min_samples: 1 };
    let mut d = VolumeAnomalyDetector::new(config, "S".to_string(), "E".to_string());
    let a = d.detect(&at(0, 5)).unwrap();
    let b = d.detect(&at(1, 5)).unwrap();
    assert_ne!(a.id, b.id);
    for id in [a.id, b.id] {
        assert_ne!(id, 0);
        assert_eq!((id >> 76) & 0xF, 4, "version 4");
        assert_eq!((id >> 62) & 0x3, 2, "variant");
    }
    assert_eq!(a.metrics.current_value, 5);
    let mut p = PriceAnomalyDetector::new(
        PriceAnomalyConfig { percentage_threshold: 0, z_score_threshold: 0, window_size: 60, min_samples: 0 },
        "S".to_string(),
        "E".to_string(),
    );
    let c = p.detect(&at(0, 5)).unwrap();
    assert_eq!((c.id >> 76) & 0xF, 4);
}
