use crypto_monitor::anomaly::{AnomalyDetection, AnomalyMetrics, AnomalySeverity};
use crypto_monitor::config::TradingConfig;
use crypto_monitor::event::AnomalyType;
use crypto_monitor::metrics::{MetricsCalculator, TrendDirection};
use crypto_monitor::trader::{
    closing_side, opening_sides, update_position, AnomalyBasedStrategy, OrderSide, Position,
    TradingStrategy,
    PositionAction, PositionSide, SignalStrength, SignalType, SimpleRiskManager, TradingStats,
};
use crypto_monitor::window::TimeSeriesData;

fn trading(enabled: bool) -> TradingConfig {
    TradingConfig { auto_trading_enabled: enabled, max_position_size: 1000, risk_percentage: 100, stop_loss_percentage: 200, take_profit_percentage: 500 }
}

fn anomaly(kind: AnomalyType, severity: AnomalySeverity, pct: Option<i64>) -> AnomalyDetection {
    AnomalyDetection {
        id: 77,
        timestamp: 1234,
        symbol: "BTC/USDT".to_string(),
        exchange: "Binance".to_string(),
        anomaly_type: kind,
        severity,
        metrics: AnomalyMetrics {
            current_value: 30_000,
            expected_value: 29_000,
            deviation: 1000,
            z_score: None,
            percentage_change: pct,
            historical_avg: None,
            historical_std: None,
        },
        description: "spike".to_string(),
    }
}

fn verdict(kind: AnomalyType, severity: AnomalySeverity, pct: Option<i64>) -> Option<(SignalType, SignalStrength)> {
    AnomalyBasedStrategy::new(trading(true)).analyze_with_id(&anomaly(kind, severity, pct), 1).map(|s| (s.signal_type, s.strength))
}

#[test]
fn signal_of_a_critical_volume_spike() {
    let s = AnomalyBasedStrategy::new(trading(true))
        .analyze_with_id(&anomaly(AnomalyType::VolumeSpike, AnomalySeverity::Critical, None), 3)
        .unwrap();
    assert_eq!(s.id, 3);
    assert_eq!(s.timestamp, 1234);
    assert_eq!(s.symbol, "BTC/USDT");
    assert_eq!(s.exchange, "Binance");
    assert_eq!(s.signal_type, SignalType::Buy);
    assert_eq!(s.strength, SignalStrength::Strong);
    assert_eq!(s.price, 30_000);
    assert_eq!(s.reason, "Anomaly detected: spike");
    assert_eq!(s.anomaly_id, Some(77));
}

#[test]
fn signals_by_kind_and_severity() {
    let volume = AnomalyType::VolumeSpike;
    let price = AnomalyType::PriceSpike;
    let critical = AnomalySeverity::Critical;
    assert_eq!(verdict(volume, AnomalySeverity::High, None), Some((SignalType::Buy, SignalStrength::Medium)));
    assert_eq!(verdict(volume, AnomalySeverity::Medium, None), None);
    assert_eq!(verdict(volume, AnomalySeverity::Low, None), None);
    assert_eq!(verdict(price, critical, Some(-501)), Some((SignalType::Buy, SignalStrength::Medium)));
    assert_eq!(verdict(price, critical, Some(-500)), None);
    assert_eq!(verdict(price, critical, Some(1001)), Some((SignalType::Sell, SignalStrength::Medium)));
    assert_eq!(verdict(price, critical, Some(1000)), None);
    assert_eq!(verdict(price, critical, Some(0)), None);
    assert_eq!(verdict(price, critical, None), None);
    assert_eq!(verdict(AnomalyType::FlashCrash, critical, Some(-5000)), None);
    assert_eq!(verdict(AnomalyType::UnusualActivity, critical, Some(5000)), None);
}

#[test]
fn no_signal_while_trading_is_off() {
    let mut s = AnomalyBasedStrategy::new(trading(false));
    let a = anomaly(AnomalyType::VolumeSpike, AnomalySeverity::Critical, None);
    assert!(s.analyze_with_id(&a, 1).is_none());
    assert!(s.analyze(&a).is_none());
    s.update_config(trading(true));
    let found = s.analyze(&a).unwrap();
    assert_eq!(found.signal_type, SignalType::Buy);
    assert_eq!((found.id >> 76) & 0xF, 4);
    assert_eq!(found.anomaly_id, Some(77));
}

#[test]
fn sides_of_orders() {
    assert_eq!(opening_sides(SignalType::Buy), Some((OrderSide::Buy, PositionSide::Long)));
    assert_eq!(opening_sides(SignalType::Sell), Some((OrderSide::Sell, PositionSide::Short)));
    assert_eq!(opening_sides(SignalType::Hold), None);
    assert_eq!(closing_side(PositionSide::Long), OrderSide::Sell);
    assert_eq!(closing_side(PositionSide::Short), OrderSide::Buy);
}

fn position(side: PositionSide) -> Position {
    Position {
        id: 1,
        side,
        quantity: 3,
        entry_price: 100,
        current_price: 100,
        unrealized_pnl: 0,
        realized_pnl: 0,
        stop_loss: Some(if side == PositionSide::Long { 95 } else { 105 }),
        take_profit: Some(if side == PositionSide::Long { 110 } else { 90 }),
        opened_at: 0,
        closed_at: None,
    }
}

#[test]
fn position_follows_the_price() {
    let mut p = position(PositionSide::Long);
    p.update_price(104);
    assert_eq!(p.current_price, 104);
    assert_eq!(p.unrealized_pnl, 12);
    assert!(!p.should_stop_loss());
    assert!(!p.should_take_profit());
    p.update_price(95);
    assert_eq!(p.unrealized_pnl, -15);
    assert!(p.should_stop_loss());
    p.update_price(110);
    assert!(p.should_take_profit());
    let mut s = position(PositionSide::Short);
    s.update_price(104);
    assert_eq!(s.unrealized_pnl, -12);
    assert!(!s.should_stop_loss());
    s.update_price(105);
    assert!(s.should_stop_loss());
    s.update_price(90);
    assert_eq!(s.unrealized_pnl, 30);
    assert!(s.should_take_profit());
}

#[test]
fn position_without_stops_is_kept() {
    let mut p = position(PositionSide::Long);
    p.stop_loss = None;
    p.take_profit = None;
    assert_eq!(update_position(&mut p, 1), PositionAction::Keep);
    assert_eq!(update_position(&mut p, i64::MAX), PositionAction::Keep);
    assert_eq!(p.unrealized_pnl, (i64::MAX as i128 - 100) * 3);
    let mut q = position(PositionSide::Long);
    q.quantity = i64::MIN;
    q.entry_price = i64::MIN;
    q.update_price(i64::MAX);
    assert_eq!(q.unrealized_pnl, (i64::MAX as i128 - i64::MIN as i128) * i64::MIN as i128);
}

#[test]
fn what_to_do_with_a_position() {
    let mut p = position(PositionSide::Long);
    assert_eq!(update_position(&mut p, 100), PositionAction::Keep);
    assert_eq!(update_position(&mut p, 94), PositionAction::CloseAtStopLoss);
    assert_eq!(update_position(&mut p, 111), PositionAction::CloseAtTakeProfit);
    // where both are reached the stop loss goes first
    p.stop_loss = Some(200);
    assert_eq!(update_position(&mut p, 150), PositionAction::CloseAtStopLoss);
}

#[test]
fn stops_and_targets() {
    let m = SimpleRiskManager::new(trading(true));
    assert_eq!(m.get_stop_loss(10_000, PositionSide::Long), 9_800);
    assert_eq!(m.get_stop_loss(10_000, PositionSide::Short), 10_200);
    assert_eq!(m.get_take_profit(10_000, PositionSide::Long), 10_500);
    assert_eq!(m.get_take_profit(10_000, PositionSide::Short), 9_500);
    // cut toward zero
    assert_eq!(m.get_stop_loss(3, PositionSide::Long), 2);
    assert_eq!(m.get_stop_loss(-3, PositionSide::Long), -2);
    assert_eq!(m.get_stop_loss(0, PositionSide::Short), 0);
}

#[test]
fn statistics_of_closed_trades() {
    let mut s = TradingStats::default();
    assert_eq!(s, TradingStats { total_trades: 0, winning_trades: 0, losing_trades: 0, win_rate: 0, total_pnl: 0 });
    s.update_stats(50);
    assert_eq!(s, TradingStats { total_trades: 1, winning_trades: 1, losing_trades: 0, win_rate: 10_000, total_pnl: 50 });
    s.update_stats(-20);
    s.update_stats(0);
    assert_eq!(s, TradingStats { total_trades: 3, winning_trades: 1, losing_trades: 2, win_rate: 3333, total_pnl: 30 });
}

fn at(i: i64, value: i64) -> TimeSeriesData {
    TimeSeriesData { timestamp: i, value }
}

fn metrics_of(values: &[i64]) -> MetricsCalculator {
    let mut m = MetricsCalculator::new();
    for (i, v) in values.iter().enumerate() {
        m.add_data("price", at(i as i64, *v), 60);
    }
    m
}

#[test]
fn indicators_of_a_missing_window() {
    let m = MetricsCalculator::new();
    assert_eq!(m.calculate_sma("price"), None);
    assert_eq!(m.calculate_ema("price", 500_000), None);
    assert_eq!(m.calculate_bollinger_bands("price"), None);
    assert_eq!(m.calculate_rsi("price", 3), None);
    assert_eq!(m.calculate_macd("price"), None);
    assert_eq!(m.calculate_volatility("price"), None);
    assert_eq!(m.detect_trend("price"), None);
}

#[test]
fn windows_are_kept_by_name() {
    let mut m = MetricsCalculator::new();
    m.add_data("price", at(0, 10), 2);
    m.add_data("volume", at(0, 500), 60);
    m.add_data("price", at(1, 20), 60);
    m.add_data("price", at(2, 30), 60);
    // the window of the price was made for two samples
    assert_eq!(m.calculate_sma("price"), Some(25));
    assert_eq!(m.calculate_sma("volume"), Some(500));
    assert_eq!(m.calculate_sma("Price"), None);
}

#[test]
fn moving_averages() {
    let m = metrics_of(&[10, 20, 30, 40]);
    assert_eq!(m.calculate_sma("price"), Some(25));
    // weight one half: 10, 15, 22 (22.5 cut), 31
    assert_eq!(m.calculate_ema("price", 500_000), Some(31));
    assert_eq!(m.calculate_ema("price", 1_000_000), Some(40));
    assert_eq!(m.calculate_ema("price", 0), Some(10));
    assert_eq!(m.calculate_volatility("price"), Some(11));
    assert_eq!(m.calculate_bollinger_bands("price"), Some((3, 25, 47)));
}

#[test]
fn convergence_and_divergence() {
    let m = metrics_of(&[1_000_000, 2_000_000, 3_000_000]);
    // weights 2/13 and 2/27
    let fast = m.calculate_ema("price", 153_846).unwrap();
    let slow = m.calculate_ema("price", 74_074).unwrap();
    assert_eq!(fast, 1_437_869);
    assert_eq!(slow, 1_216_735);
    let macd = fast - slow;
    assert_eq!(m.calculate_macd("price"), Some((macd, macd / 5, macd - macd / 5)));
}

#[test]
fn relative_strength() {
    // changes +10, -5, +15: rises 25 of 30
    let m = metrics_of(&[100, 110, 105, 120]);
    assert_eq!(m.calculate_rsi("price", 3), Some(8333));
    assert_eq!(m.calculate_rsi("price", 1), Some(10_000));
    assert_eq!(m.calculate_rsi("price", 2), Some(6666));
    assert_eq!(m.calculate_rsi("price", 4), None);
    assert_eq!(m.calculate_rsi("price", 0), Some(10_000));
    let falling = metrics_of(&[100, 90, 80]);
    assert_eq!(falling.calculate_rsi("price", 2), Some(0));
    let flat = metrics_of(&[100, 100, 100]);
    assert_eq!(flat.calculate_rsi("price", 2), Some(10_000));
}

#[test]
fn trend_of_the_latest_three() {
    assert_eq!(metrics_of(&[100, 100]).detect_trend("price"), None);
    assert_eq!(metrics_of(&[1000, 1, 1011]).detect_trend("price"), Some(TrendDirection::Up));
    assert_eq!(metrics_of(&[1000, 1, 1010]).detect_trend("price"), Some(TrendDirection::Sideways));
    assert_eq!(metrics_of(&[1000, 1, 990]).detect_trend("price"), Some(TrendDirection::Sideways));
    assert_eq!(metrics_of(&[1000, 1, 989]).detect_trend("price"), Some(TrendDirection::Down));
    assert_eq!(metrics_of(&[5, 1000, 1, 989]).detect_trend("price"), Some(TrendDirection::Down));
}

#[test]
fn volume_profile_of_no_trades_is_none() {
    assert!(crypto_monitor::profile::VolumeProfile::calculate(&vec![]).is_none());
}

#[test]
fn volume_profile_sums_by_price_and_orders_by_volume() {
    let trades = vec![(100, 5), (101, 3), (100, 4), (99, 9), (101, 1)];
    let p = crypto_monitor::profile::VolumeProfile::calculate(&trades).unwrap();
    let levels: Vec<(i64, i128)> = p.levels.iter().map(|l| (l.price, l.volume)).collect();
    // of two levels with the same volume the lower price comes first
    assert_eq!(levels, vec![(99, 9), (100, 9), (101, 4)]);
    assert_eq!(p.poc, 99);
    // the first level alone carries 9 of 22; with the second it would be more than seven tenths
    assert_eq!(p.vah, 99);
    assert_eq!(p.val, 99);
}

#[test]
fn volume_profile_value_area() {
    let trades = vec![(10, 50), (11, 20), (12, 20), (9, 10)];
    let p = crypto_monitor::profile::VolumeProfile::calculate(&trades).unwrap();
    let levels: Vec<(i64, i128)> = p.levels.iter().map(|l| (l.price, l.volume)).collect();
    assert_eq!(levels, vec![(10, 50), (11, 20), (12, 20), (9, 10)]);
    assert_eq!(p.poc, 10);
    // 50 and 20 together are exactly seven tenths of 100
    assert_eq!(p.vah, 11);
    assert_eq!(p.val, 10);
    let one = crypto_monitor::profile::VolumeProfile::calculate(&vec![(7, 3)]).unwrap();
    assert_eq!((one.poc, one.vah, one.val), (7, 7, 7));
    assert_eq!(one.levels.len(), 1);
}

#[test]
fn volume_profile_below_the_point_of_control() {
    let trades = vec![(20, 40), (18, 30), (25, 30)];
    let p = crypto_monitor::profile::VolumeProfile::calculate(&trades).unwrap();
    let levels: Vec<(i64, i128)> = p.levels.iter().map(|l| (l.price, l.volume)).collect();
    assert_eq!(levels, vec![(20, 40), (18, 30), (25, 30)]);
    assert_eq!((p.poc, p.vah, p.val), (20, 20, 18));
}

#[test]
fn volume_profile_of_a_long_list_of_large_trades() {
    let largest = crypto_monitor::window::MAX_VALUE;
    let trades: Vec<(i64, i64)> = (0..70_000).map(|i| (i % 3, largest)).collect();
    let p = crypto_monitor::profile::VolumeProfile::calculate(&trades).unwrap();
    let levels: Vec<(i64, i128)> = p.levels.iter().map(|l| (l.price, l.volume)).collect();
    let each = largest as i128;
    assert_eq!(levels, vec![(0, 23_334 * each), (1, 23_333 * each), (2, 23_333 * each)]);
    // the first two levels carry two thirds of all volume
    assert_eq!((p.poc, p.vah, p.val), (0, 1, 0));
}

#[test]
fn volume_profile_with_volumes_of_both_signs() {
    let trades = vec![(5, 10), (6, -4), (5, -3), (7, 2)];
    let p = crypto_monitor::profile::VolumeProfile::calculate(&trades).unwrap();
    let levels: Vec<(i64, i128)> = p.levels.iter().map(|l| (l.price, l.volume)).collect();
    assert_eq!(levels, vec![(5, 7), (7, 2), (6, -4)]);
    // all volume is 5: the first level carries more than seven tenths of it, all three carry all
    assert_eq!((p.poc, p.vah, p.val), (5, 5, 5));
}
