use crypto_monitor::anomaly::{AnomalyDetection, AnomalySeverity, PriceAnomalyConfig, VolumeAnomalyConfig};
use crypto_monitor::event::AnomalyType;
use crypto_monitor::monitor::{is_debounced, InstrumentMonitor, MonitorConfig};
use crypto_monitor::window::MAX_VALUE;

const UNIT: i64 = 1_000_000;

fn fixed() -> MonitorConfig {
    MonitorConfig { dynamic_thresholds: false, ..MonitorConfig::default() }
}

fn eager() -> MonitorConfig {
    // detectors that report every sample, so that only the monitor's own rules decide
    MonitorConfig {
        volume: VolumeAnomalyConfig { z_score_threshold: 0, min_percentage_change: 0, window_size: 60, min_samples: 1 },
        price: PriceAnomalyConfig { percentage_threshold: 1_000_000, z_score_threshold: 1_000_000, window_size: 60, min_samples: 1 },
        min_samples: 1,
        dynamic_thresholds: false,
        ..MonitorConfig::default()
    }
}

fn warm(m: &mut InstrumentMonitor, trades: i64, until: i64) {
    for i in 0..trades {
        let t = until - (trades - i) * 1000;
        assert!(m.observe_trade_with_id(100 * UNIT, UNIT, t, 1).is_empty(), "quiet at {}", t);
    }
}

#[test]
fn monitor_defaults() {
    let c = MonitorConfig::default();
    assert!(c.is_valid());
    assert_eq!(c.debounce_ms, 2000);
    assert_eq!(c.min_samples, 30);
    assert_eq!(c.window_size, 60);
    assert!(c.dynamic_thresholds);
    assert_eq!(c.volume_multiplier_base, 5000);
    assert_eq!(c.volume_multiplier_max, 20_000);
    assert_eq!(c.price, PriceAnomalyConfig::default());
    assert_eq!(c.volume, VolumeAnomalyConfig::default());
}

#[test]
fn monitor_config_rules() {
    assert!(!MonitorConfig { window_size: 0, ..MonitorConfig::default() }.is_valid());
    assert!(!MonitorConfig { window_size: 65_537, ..MonitorConfig::default() }.is_valid());
    assert!(!MonitorConfig { debounce_ms: -1, ..MonitorConfig::default() }.is_valid());
    assert!(!MonitorConfig { volume_multiplier_base: 9, volume_multiplier_max: 8, ..MonitorConfig::default() }.is_valid());
    assert!(!MonitorConfig { volume_multiplier_base: -1, ..MonitorConfig::default() }.is_valid());
    let mut c = MonitorConfig::default();
    c.price.window_size = 0;
    assert!(!c.is_valid());
    let mut c = MonitorConfig::default();
    c.flash_crash.periods = 0;
    assert!(!c.is_valid());
    assert!(MonitorConfig { debounce_ms: 0, window_size: 65_536, ..MonitorConfig::default() }.is_valid());
}

#[test]
fn second_spike_within_two_seconds_is_dropped() {
    let mut m = InstrumentMonitor::new(fixed(), "BTC/USDT", "Binance");
    warm(&mut m, 31, 0);
    let first = m.observe_trade_with_id(100 * UNIT, 20 * UNIT, 0, 11);
    assert_eq!(first.len(), 1);
    assert_eq!(first[0].id, 11);
    assert_eq!(first[0].timestamp, 0);
    assert_eq!(first[0].anomaly_type, AnomalyType::VolumeSpike);
    assert_eq!(first[0].severity, AnomalySeverity::Critical);
    assert_eq!(first[0].symbol, "BTC/USDT");
    assert_eq!(first[0].exchange, "Binance");
    assert_eq!(first[0].metrics.z_score, Some(5567));
    // a second spike one second later is dropped
    let second = m.observe_trade_with_id(100 * UNIT, 20 * UNIT, 1000, 12);
    assert!(second.is_empty());
    let s = m.snapshot_stats();
    assert_eq!(s.anomaly_count, 1);
    assert_eq!(s.last_alert_at, Some(0));
    assert_eq!(s.trade_count, 33);
    assert_eq!(s.last_price, Some(100 * UNIT));
    assert_eq!(s.total_volume, 71 * UNIT as i128);
    assert_eq!(m.anomaly_count(), 1);
    assert_eq!(m.last_alert_at(), Some(0));
    // one millisecond short of two seconds is still too soon
    assert!(m.observe_trade_with_id(100 * UNIT, 1000 * UNIT, 1999, 13).is_empty());
    // two seconds after the alert the next one passes
    let third = m.observe_trade_with_id(100 * UNIT, 1000 * UNIT, 2000, 14);
    assert_eq!(third.len(), 1);
    assert_eq!(third[0].timestamp, 2000);
    assert_eq!(m.last_alert_at(), Some(2000));
    assert_eq!(m.anomaly_count(), 2);
}

#[test]
fn is_debounced_counts_from_the_last_alert() {
    let c = MonitorConfig::default();
    assert!(!is_debounced(&c, None, 0));
    assert!(is_debounced(&c, Some(1000), 1000));
    assert!(is_debounced(&c, Some(1000), 2999));
    assert!(!is_debounced(&c, Some(1000), 3000));
    assert!(is_debounced(&c, Some(1000), 0));
    assert!(is_debounced(&c, Some(i64::MAX), i64::MIN));
    assert!(!is_debounced(&c, Some(i64::MIN), i64::MAX));
}

fn spacing_holds(alerts: &[AnomalyDetection], debounce: i64) {
    for pair in alerts.windows(2) {
        assert!(pair[1].timestamp >= pair[0].timestamp, "time went back");
        assert!(pair[1].timestamp - pair[0].timestamp >= debounce, "{} then {}", pair[0].timestamp, pair[1].timestamp);
    }
}

#[test]
fn alerts_are_spaced_and_in_time_order() {
    let mut m = InstrumentMonitor::new(eager(), "S", "E");
    let mut alerts: Vec<AnomalyDetection> = Vec::new();
    let mut seed: u64 = 12345;
    let mut t: i64 = 0;
    for i in 0..2000i64 {
        seed = seed.wrapping_mul(6364136223846793005).wrapping_add(1442695040888963407);
        let step = ((seed >> 33) % 1500) as i64 - 300;
        t += step;
        let quantity = 1 + ((seed >> 20) % 1000) as i64;
        let found = m.observe_trade_with_id(100 + (i % 7), quantity, t, i as u128);
        assert!(found.len() <= 1);
        alerts.extend(found);
    }
    assert!(alerts.len() > 100, "{} alerts", alerts.len());
    spacing_holds(&alerts, 2000);
    assert_eq!(m.last_alert_at(), Some(alerts.last().unwrap().timestamp));
}

#[test]
fn alerts_are_spaced_across_a_reset() {
    let mut m = InstrumentMonitor::new(eager(), "S", "E");
    let a = m.observe_trade_with_id(100, 5, 10, 1);
    assert_eq!(a.len(), 1);
    m.reset();
    assert!(m.observe_trade_with_id(100, 5, 20, 3).is_empty());
    assert!(m.observe_trade_with_id(100, 6, 2009, 4).is_empty());
    assert_eq!(m.observe_trade_with_id(100, 6, 2010, 5).len(), 1);
}

#[test]
fn monitor_is_silent_below_its_min_samples() {
    let config = MonitorConfig { min_samples: 30, ..eager() };
    let mut m = InstrumentMonitor::new(config, "S", "E");
    for i in 0..29 {
        assert!(m.observe_trade_with_id(100, 5 + i, i * 10_000, 1).is_empty(), "trade {}", i + 1);
    }
    assert_eq!(m.observe_trade_with_id(100, 500, 290_000, 1).len(), 1);
}

#[test]
fn dynamic_threshold_holds_back_a_moderate_volume() {
    let mut m = InstrumentMonitor::new(MonitorConfig::default(), "S", "E");
    warm(&mut m, 31, 0);
    // twenty times the usual volume is below 17.5 times the mean that it raised
    assert!(m.observe_trade_with_id(100 * UNIT, 20 * UNIT, 0, 1).is_empty());
    let s = m.snapshot_stats();
    assert_eq!(s.dynamic_volume_threshold, 17_500);
    assert_eq!(s.anomaly_count, 0);
    assert_eq!(s.last_alert_at, None);
}

#[test]
fn dynamic_threshold_lets_a_large_volume_through() {
    let mut m = InstrumentMonitor::new(MonitorConfig::default(), "S", "E");
    warm(&mut m, 31, 0);
    let found = m.observe_trade_with_id(100 * UNIT, 100 * UNIT, 0, 1);
    assert_eq!(found.len(), 1);
    assert_eq!(found[0].anomaly_type, AnomalyType::VolumeSpike);
    assert_eq!(found[0].metrics.percentage_change, Some(234_274));
    assert_eq!(m.snapshot_stats().dynamic_volume_threshold, 17_500);
}

#[test]
fn volume_multiplier_stays_between_its_bounds() {
    // volumes that do not vary: 5 * (1.5 + 0) = 7.5
    let mut m = InstrumentMonitor::new(MonitorConfig::default(), "S", "E");
    for i in 0..31 {
        m.observe_trade_with_id(100 * UNIT, UNIT, i * 1000, 1);
    }
    assert_eq!(m.snapshot_stats().dynamic_volume_threshold, 7500);
    // a maximum below that holds it down
    let config = MonitorConfig { volume_multiplier_max: 6000, ..MonitorConfig::default() };
    let mut m = InstrumentMonitor::new(config, "S", "E");
    for i in 0..31 {
        m.observe_trade_with_id(100 * UNIT, UNIT, i * 1000, 1);
    }
    assert_eq!(m.snapshot_stats().dynamic_volume_threshold, 6000);
    // before the gates are passed it is the base
    let mut m = InstrumentMonitor::new(MonitorConfig::default(), "S", "E");
    m.observe_trade_with_id(100 * UNIT, UNIT, 0, 1);
    assert_eq!(m.snapshot_stats().dynamic_volume_threshold, 5000);
}

#[test]
fn dynamic_threshold_holds_back_a_price_move_among_few_changes() {
    let mut m = InstrumentMonitor::new(MonitorConfig::default(), "S", "E");
    warm(&mut m, 31, 0);
    // the changes seen are 0, 0 and 6%: their mean plus two deviations is 7.64%
    assert!(m.observe_trade_with_id(106 * UNIT, UNIT, 0, 1).is_empty());
}

#[test]
fn dynamic_threshold_lets_a_price_move_through_among_many_changes() {
    let mut m = InstrumentMonitor::new(MonitorConfig::default(), "S", "E");
    warm(&mut m, 61, 0);
    let found = m.observe_trade_with_id(106 * UNIT, UNIT, 0, 1);
    assert_eq!(found.len(), 1);
    assert_eq!(found[0].anomaly_type, AnomalyType::PriceSpike);
    assert_eq!(found[0].severity, AnomalySeverity::Medium);
    assert_eq!(found[0].metrics.percentage_change, Some(600));
}

#[test]
fn findings_of_one_trade_become_one_alert() {
    let mut m = InstrumentMonitor::new(fixed(), "BTC/USDT", "Binance");
    warm(&mut m, 31, 0);
    let found = m.observe_trade_with_id(106 * UNIT, 20 * UNIT, 0, 21);
    assert_eq!(found.len(), 1);
    let a = &found[0];
    assert_eq!(a.id, 21);
    assert_eq!(a.anomaly_type, AnomalyType::PriceSpike);
    assert_eq!(a.severity, AnomalySeverity::Critical);
    assert_eq!(a.metrics.percentage_change, Some(600));
    assert_eq!(
        a.description,
        "Price anomaly detected for Binance/BTC/USDT: price moved 600 bp from 100000000 to 106000000, \
         z-score in thousandths: 0\nVolume anomaly detected for Binance/BTC/USDT: current volume \
         20000000 is 115490 bp above average (1593750), z-score in thousandths: 5567"
    );
    // each finding is counted
    assert_eq!(m.anomaly_count(), 2);
}

#[test]
fn flash_crash_passes_the_dynamic_gates() {
    let mut m = InstrumentMonitor::new(MonitorConfig::default(), "S", "E");
    warm(&mut m, 31, 0);
    let found = m.observe_trade_with_id(85 * UNIT, UNIT, 0, 1);
    assert_eq!(found.len(), 1);
    assert_eq!(found[0].anomaly_type, AnomalyType::FlashCrash);
    assert_eq!(found[0].severity, AnomalySeverity::Critical);
}

#[test]
fn trade_out_of_range_is_dropped() {
    let mut m = InstrumentMonitor::new(eager(), "S", "E");
    assert_eq!(m.observe_trade_with_id(100, 5, 0, 1).len(), 1);
    let before = m.snapshot_stats();
    assert!(m.observe_trade_with_id(MAX_VALUE + 1, 5, 5000, 1).is_empty());
    assert!(m.observe_trade_with_id(100, -MAX_VALUE - 1, 5000, 1).is_empty());
    assert_eq!(m.snapshot_stats(), before);
    // the monitor goes on
    assert_eq!(m.observe_trade_with_id(100, 6, 5000, 1).len(), 1);
}

#[test]
fn counters_of_a_monitor() {
    let mut m = InstrumentMonitor::new(MonitorConfig::default(), "S", "E");
    let s = m.snapshot_stats();
    assert_eq!(s.trade_count, 0);
    assert_eq!(s.total_volume, 0);
    assert_eq!(s.price, None);
    assert_eq!(s.volume, None);
    m.observe_trade_with_id(100, 5, 0, 1);
    m.observe_trade_with_id(110, -2, 1, 1);
    let s = m.snapshot_stats();
    assert_eq!(s.trade_count, 2);
    assert_eq!(s.total_volume, 3);
    assert_eq!(s.last_price, Some(110));
    assert_eq!(s.price.unwrap().mean, 105);
    assert_eq!(s.price.unwrap().max, 110);
    assert_eq!(s.volume.unwrap().min, -2);
}

#[test]
fn book_top_is_recorded_and_raises_nothing() {
    let mut m = InstrumentMonitor::new(MonitorConfig::default(), "S", "E");
    assert!(m.observe_book_top(99, 5, 101, 7).is_empty());
    assert!(m.observe_book_top(98, 5, 102, 7).is_empty());
    let s = m.snapshot_stats();
    assert_eq!(s.book_count, 2);
    assert_eq!(s.last_bid, Some(98));
    assert_eq!(s.last_ask, Some(102));
    assert_eq!(s.trade_count, 0);
    assert!(m.observe_book_top(97, 5, i64::MAX, 7).is_empty());
    assert_eq!(m.snapshot_stats(), s);
}

#[test]
fn reset_keeps_the_counters() {
    let mut m = InstrumentMonitor::new(eager(), "S", "E");
    assert!(m.observe_trade_with_id(100, 5, 0, 1).is_empty() == false);
    assert_eq!(m.observe_trade_with_id(100, 6, 4000, 1).len(), 1);
    m.observe_book_top(99, 1, 101, 1);
    m.reset();
    let s = m.snapshot_stats();
    assert_eq!(s.trade_count, 2);
    assert_eq!(s.book_count, 1);
    assert_eq!(s.anomaly_count, 2);
    assert_eq!(s.total_volume, 11);
    assert_eq!(s.last_alert_at, Some(4000));
    assert_eq!(s.last_price, None);
    assert_eq!(s.last_bid, None);
    assert_eq!(s.price, None);
    assert_eq!(s.volume, None);
}

#[test]
fn observe_trade_gives_a_random_identifier() {
    let mut m = InstrumentMonitor::new(eager(), "S", "E");
    let found = m.observe_trade(100, 6, 10);
    assert_eq!(found.len(), 1);
    assert!(m.observe_trade(100, 6, 20).is_empty());
    assert_eq!((found[0].id >> 76) & 0xF, 4);
    assert_eq!((found[0].id >> 62) & 0x3, 2);
    assert_eq!(found[0].timestamp, 10);
}

#[test]
fn second_spike_is_dropped_under_the_default_configuration() {
    let mut m = InstrumentMonitor::new(MonitorConfig::default(), "BTC/USDT", "Binance");
    warm(&mut m, 31, 0);
    let first = m.observe_trade_with_id(100 * UNIT, 100 * UNIT, 0, 1);
    assert_eq!(first.len(), 1);
    assert_eq!(first[0].anomaly_type, AnomalyType::VolumeSpike);
    let second = m.observe_trade_with_id(100 * UNIT, 100 * UNIT, 1000, 2);
    assert!(second.is_empty());
    assert_eq!(m.anomaly_count(), 1);
}
