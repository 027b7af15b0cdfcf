//! The monitor of one instrument: four detectors, three shared windows, and
//! the rules that decide which of the detectors' findings are let through.

use crate::anomaly::{
    maybe, records, reports, AnomalyDetection, AnomalyRecord, AnomalySeverity,
    PriceAnomalyConfig, VolumeAnomalyConfig,
};
use crate::arith::{abs_spec, ratio, ratio_spec, RATIO_CAP};
use crate::detector::{
    price_detection, price_move, ratio_size, volume_detection, AnomalyDetector,
    PriceAnomalyDetector, VolumeAnomalyDetector,
};
use crate::pattern::{
    flash_crash_detection, pump_dump_detection, FlashCrashConfig, FlashCrashDetector,
    PumpDumpConfig, PumpDumpDetector,
};
use crate::stats::{statistics_of, Statistics};
use crate::window::{
    all_in_range, in_range, push_spec, TimeSeriesData, TimeSeriesWindow, MAX_VALUE,
    MAX_WINDOW,
};
use vstd::prelude::*;
use vstd::string::*;

verus! {

/// How a monitor is set: its four detectors, the capacity of its shared
/// windows, the number of samples below which it lets nothing through, the
/// time in milliseconds that must pass between two alerts, whether findings
/// are held against thresholds that follow the data, and the bounds of the
/// volume multiplier (in thousandths).
#[derive(Clone, Copy, Debug, PartialEq, Eq, Structural)]
pub struct MonitorConfig {
    pub price: PriceAnomalyConfig,
    pub volume: VolumeAnomalyConfig,
    pub flash_crash: FlashCrashConfig,
    pub pump_dump: PumpDumpConfig,
    pub window_size: usize,
    pub min_samples: usize,
    pub debounce_ms: i64,
    pub dynamic_thresholds: bool,
    pub volume_multiplier_base: i64,
    pub volume_multiplier_max: i64,
}

impl MonitorConfig {
    /// Whether a monitor can be made from the configuration: every window
    /// has a capacity that a window can have, the time between alerts is not
    /// negative, and the bounds of the volume multiplier are in order.
    pub open spec fn wf(self) -> bool {
        &&& 1 <= self.price.window_size <= MAX_WINDOW
        &&& 1 <= self.volume.window_size <= MAX_WINDOW
        &&& 1 <= self.flash_crash.periods <= MAX_WINDOW
        &&& 1 <= self.pump_dump.periods <= MAX_WINDOW
        &&& 1 <= self.window_size <= MAX_WINDOW
        &&& 0 <= self.debounce_ms
        &&& 0 <= self.volume_multiplier_base <= self.volume_multiplier_max
    }

    /// Whether a monitor can be made from the configuration.
    pub fn is_valid(&self) -> (r: bool)
        ensures
            r == self.wf(),
    {
        1 <= self.price.window_size && self.price.window_size <= MAX_WINDOW && 1
            <= self.volume.window_size && self.volume.window_size <= MAX_WINDOW && 1
            <= self.flash_crash.periods && self.flash_crash.periods <= MAX_WINDOW && 1
            <= self.pump_dump.periods && self.pump_dump.periods <= MAX_WINDOW && 1
            <= self.window_size && self.window_size <= MAX_WINDOW && 0 <= self.debounce_ms && 0
            <= self.volume_multiplier_base && self.volume_multiplier_base
            <= self.volume_multiplier_max
    }
}

impl Default for MonitorConfig {
    fn default() -> (c: Self)
        ensures
            c.wf(),
            c == (MonitorConfig {
                price: PriceAnomalyConfig {
                    percentage_threshold: 500,
                    z_score_threshold: 3000,
                    window_size: 60,
                    min_samples: 30,
                },
                volume: VolumeAnomalyConfig {
                    z_score_threshold: 3000,
                    min_percentage_change: 20000,
                    window_size: 60,
                    min_samples: 30,
                },
                flash_crash: FlashCrashConfig { periods: 5, min_drop: 1000, max_share: 9000 },
                pump_dump: PumpDumpConfig {
                    periods: 20,
                    min_pump: 2000,
                    min_dump: 1500,
                    peak_after: 5,
                    peak_before: 15,
                },
                window_size: 60,
                min_samples: 30,
                debounce_ms: 2000,
                dynamic_thresholds: true,
                volume_multiplier_base: 5000,
                volume_multiplier_max: 20000,
            }),
    {
        MonitorConfig {
            price: PriceAnomalyConfig::default(),
            volume: VolumeAnomalyConfig::default(),
            flash_crash: FlashCrashConfig::default(),
            pump_dump: PumpDumpConfig::default(),
            window_size: 60,
            min_samples: 30,
            debounce_ms: 2000,
            dynamic_thresholds: true,
            volume_multiplier_base: 5000,
            volume_multiplier_max: 20000,
        }
    }
}

/// The largest size that the running total of volumes is let reach.
pub const TOTAL_VOLUME_CAP: i128 = 0x1_0000_0000_0000_0000_0000_0000_0000;

/// What a monitor holds, as a mathematical value.
pub struct MonitorState {
    pub config: MonitorConfig,
    pub symbol: Seq<char>,
    pub exchange: Seq<char>,
    pub price_detector_window: Seq<TimeSeriesData>,
    pub price_detector_last: Option<i64>,
    pub volume_detector_window: Seq<TimeSeriesData>,
    pub flash_crash_window: Seq<TimeSeriesData>,
    pub pump_dump_window: Seq<TimeSeriesData>,
    pub price_window: Seq<TimeSeriesData>,
    pub volume_window: Seq<TimeSeriesData>,
    pub price_change_window: Seq<TimeSeriesData>,
    pub last_price: Option<i64>,
    pub last_alert_at: Option<i64>,
    pub last_bid: Option<i64>,
    pub last_ask: Option<i64>,
    pub trade_count: u64,
    pub book_count: u64,
    pub total_volume: i128,
    pub anomaly_count: u64,
    pub dynamic_volume_threshold: i64,
}

/// A counter raised by `by`, held at the largest value it can take.
pub open spec fn raised(count: u64, by: nat) -> u64 {
    if count + by > u64::MAX {
        u64::MAX
    } else {
        (count + by) as u64
    }
}

/// A total raised by one volume, held to `TOTAL_VOLUME_CAP` in size.
pub open spec fn accumulated(total: i128, volume: i64) -> i128 {
    let t = total + volume;
    if t > TOTAL_VOLUME_CAP {
        TOTAL_VOLUME_CAP
    } else if t < -TOTAL_VOLUME_CAP {
        (-TOTAL_VOLUME_CAP) as i128
    } else {
        t as i128
    }
}

/// Whether an alert at time `now` comes too soon after the last one.
pub open spec fn debounced(config: MonitorConfig, last_alert_at: Option<i64>, now: i64) -> bool {
    match last_alert_at {
        Some(t) => now - t < config.debounce_ms,
        None => false,
    }
}

/// The size of the move from the last price to `price`, in hundredths of a
/// percent, where there is a last price above 0.
pub open spec fn observed_change(last_price: Option<i64>, price: i64) -> Option<int> {
    match last_price {
        Some(l) => if l > 0 {
            Some(abs_spec(price_move(last_price, price as int)))
        } else {
            None
        },
        None => None,
    }
}

/// The window of price changes after a trade past the gates: it takes the
/// observed change, where there is one.
pub open spec fn changes_after(
    config: MonitorConfig,
    changes: Seq<TimeSeriesData>,
    change: Option<int>,
    now: i64,
) -> Seq<TimeSeriesData> {
    match change {
        Some(c) => push_spec(
            changes,
            config.window_size as nat,
            TimeSeriesData { timestamp: now, value: c as i64 },
        ),
        None => changes,
    }
}

/// The threshold that a price change must exceed where thresholds follow
/// the data: the mean of the recent changes plus twice their standard
/// deviation, but at least the configured threshold.
pub open spec fn dynamic_price_threshold(config: MonitorConfig, st: Statistics) -> int {
    let follow = st.mean + 2 * st.std_dev;
    if follow > config.price.percentage_threshold {
        follow
    } else {
        config.price.percentage_threshold as int
    }
}

/// Whether a price finding is let through: always where thresholds are
/// fixed; else where the observed change exceeds both the dynamic threshold
/// and the 95th percentile of the recent changes.
pub open spec fn price_kept(
    config: MonitorConfig,
    changes: Seq<TimeSeriesData>,
    change: Option<int>,
) -> bool {
    !config.dynamic_thresholds || match (statistics_of(changes), change) {
        (Some(st), Some(c)) => c > dynamic_price_threshold(config, st) && c > st.percentile_95,
        _ => false,
    }
}

/// The volume multiplier, in thousandths, after a trade past the gates:
/// where thresholds follow the data it is the base times 1.5 plus the
/// volumes' standard deviation over their mean (this at most 2), held between
/// the base and the maximum; else it stays as it is.
pub open spec fn volume_multiplier(
    config: MonitorConfig,
    current: i64,
    st: Option<Statistics>,
) -> int {
    match st {
        Some(s) => if config.dynamic_thresholds {
            let spread = ratio_spec(s.std_dev as int, s.mean as int, 1000);
            let capped = if spread > 2000 {
                2000
            } else {
                spread
            };
            let scaled = (config.volume_multiplier_base * (1500 + capped)) / 1000;
            if scaled < config.volume_multiplier_base {
                config.volume_multiplier_base as int
            } else if scaled > config.volume_multiplier_max {
                config.volume_multiplier_max as int
            } else {
                scaled
            }
        } else {
            current as int
        },
        None => current as int,
    }
}

/// Whether a volume finding is let through: always where thresholds are
/// fixed; else where the volume exceeds both the mean times the multiplier
/// and one and a half times the 95th percentile of the recent volumes.
pub open spec fn volume_kept(
    config: MonitorConfig,
    st: Option<Statistics>,
    multiplier: int,
    volume: i64,
) -> bool {
    !config.dynamic_thresholds || match st {
        Some(s) => volume * 1000 > s.mean * multiplier && volume * 2 > s.percentile_95 * 3,
        None => false,
    }
}

/// The record if it is let through.
pub open spec fn kept_if(keep: bool, due: Option<AnomalyRecord>) -> Seq<AnomalyRecord> {
    if keep {
        maybe(due)
    } else {
        Seq::empty()
    }
}

/// The gravest severity among the records; low for none.
pub open spec fn worst_of(kept: Seq<AnomalyRecord>) -> AnomalySeverity
    decreases kept.len(),
{
    if kept.len() == 0 {
        AnomalySeverity::Low
    } else {
        worst_of(kept.drop_last()).worst_spec(kept.last().severity)
    }
}

/// The descriptions of the records, one per line.
pub open spec fn joined(kept: Seq<AnomalyRecord>) -> Seq<char>
    decreases kept.len(),
{
    if kept.len() == 0 {
        Seq::empty()
    } else if kept.len() == 1 {
        kept[0].description
    } else {
        joined(kept.drop_last()) + "\n"@ + kept.last().description
    }
}

/// The one alert that stands for all findings let through: it is of the kind
/// of the first and carries its numbers, it is as grave as the gravest, and
/// it describes them all.
pub open spec fn combined(kept: Seq<AnomalyRecord>, now: i64, id: u128) -> AnomalyRecord {
    AnomalyRecord {
        id,
        timestamp: now,
        symbol: kept[0].symbol,
        exchange: kept[0].exchange,
        anomaly_type: kept[0].anomaly_type,
        severity: worst_of(kept),
        metrics: kept[0].metrics,
        description: joined(kept),
    }
}

/// Whether the monitor takes a trade: both its price and its quantity are
/// in range.
pub open spec fn trade_accepted(price: i64, quantity: i64) -> bool {
    in_range(price) && in_range(quantity)
}

/// Whether a trade, once taken, passes the gates: the shared price window
/// then holds enough samples, and the last alert lies far enough back.
pub open spec fn past_gates(s: MonitorState, price: i64, now: i64) -> bool {
    let prices = push_spec(
        s.price_window,
        s.config.window_size as nat,
        TimeSeriesData { timestamp: now, value: price },
    );
    prices.len() >= s.config.min_samples && !debounced(s.config, s.last_alert_at, now)
}

/// The findings that are let through for a trade past the gates, in the
/// order price, volume, flash crash, pump-and-dump.
pub open spec fn findings_kept(s: MonitorState, price: i64, quantity: i64, now: i64, id: u128) -> Seq<
    AnomalyRecord,
> {
    let price_sample = TimeSeriesData { timestamp: now, value: price };
    let volume_sample = TimeSeriesData { timestamp: now, value: quantity };
    let change = observed_change(s.last_price, price);
    let changes = changes_after(s.config, s.price_change_window, change, now);
    let volumes = push_spec(s.volume_window, s.config.window_size as nat, volume_sample);
    let volume_stats = statistics_of(volumes);
    let multiplier = volume_multiplier(s.config, s.dynamic_volume_threshold, volume_stats);
    kept_if(
        price_kept(s.config, changes, change),
        price_detection(
            s.config.price,
            s.symbol,
            s.exchange,
            s.price_detector_window,
            s.price_detector_last,
            price_sample,
            id,
        ),
    ) + kept_if(
        volume_kept(s.config, volume_stats, multiplier, quantity),
        volume_detection(
            s.config.volume,
            s.symbol,
            s.exchange,
            s.volume_detector_window,
            volume_sample,
            id,
        ),
    ) + maybe(
        flash_crash_detection(
            s.config.flash_crash,
            s.symbol,
            s.exchange,
            push_spec(s.flash_crash_window, s.config.flash_crash.periods as nat, price_sample),
            now,
            id,
        ),
    ) + maybe(
        pump_dump_detection(
            s.config.pump_dump,
            s.symbol,
            s.exchange,
            push_spec(s.pump_dump_window, s.config.pump_dump.periods as nat, price_sample),
            now,
            id,
        ),
    )
}

/// What the monitor emits for a trade: nothing where the trade is not taken
/// or does not pass the gates or no finding is let through; else one alert
/// that stands for all findings let through.
pub open spec fn monitor_emits(s: MonitorState, price: i64, quantity: i64, now: i64, id: u128) -> Seq<
    AnomalyRecord,
> {
    let kept = findings_kept(s, price, quantity, now, id);
    if trade_accepted(price, quantity) && past_gates(s, price, now) && kept.len() > 0 {
        seq![combined(kept, now, id)]
    } else {
        Seq::empty()
    }
}

/// What the monitor holds after a trade.  A trade that is not taken changes
/// nothing.  One that is taken is counted, and its price and quantity join
/// the detectors and the shared windows.  Past the gates, the observed change
/// joins the window of changes and the volume multiplier follows the
/// volumes.  Where an alert is emitted, its findings are counted and its time
/// is remembered.
pub open spec fn monitor_after(s: MonitorState, price: i64, quantity: i64, now: i64) -> MonitorState {
    if !trade_accepted(price, quantity) {
        s
    } else {
        let price_sample = TimeSeriesData { timestamp: now, value: price };
        let volume_sample = TimeSeriesData { timestamp: now, value: quantity };
        let change = observed_change(s.last_price, price);
        let volumes = push_spec(s.volume_window, s.config.window_size as nat, volume_sample);
        let gates = past_gates(s, price, now);
        let kept = findings_kept(s, price, quantity, now, 0);
        MonitorState {
            config: s.config,
            symbol: s.symbol,
            exchange: s.exchange,
            price_detector_window: push_spec(
                s.price_detector_window,
                s.config.price.window_size as nat,
                price_sample,
            ),
            price_detector_last: Some(price),
            volume_detector_window: push_spec(
                s.volume_detector_window,
                s.config.volume.window_size as nat,
                volume_sample,
            ),
            flash_crash_window: push_spec(
                s.flash_crash_window,
                s.config.flash_crash.periods as nat,
                price_sample,
            ),
            pump_dump_window: push_spec(
                s.pump_dump_window,
                s.config.pump_dump.periods as nat,
                price_sample,
            ),
            price_window: push_spec(s.price_window, s.config.window_size as nat, price_sample),
            volume_window: volumes,
            price_change_window: if gates {
                changes_after(s.config, s.price_change_window, change, now)
            } else {
                s.price_change_window
            },
            last_price: Some(price),
            last_alert_at: if gates && kept.len() > 0 {
                Some(now)
            } else {
                s.last_alert_at
            },
            last_bid: s.last_bid,
            last_ask: s.last_ask,
            trade_count: raised(s.trade_count, 1),
            book_count: s.book_count,
            total_volume: accumulated(s.total_volume, quantity),
            anomaly_count: if gates {
                raised(s.anomaly_count, kept.len())
            } else {
                s.anomaly_count
            },
            dynamic_volume_threshold: if gates {
                volume_multiplier(s.config, s.dynamic_volume_threshold, statistics_of(volumes)) as i64
            } else {
                s.dynamic_volume_threshold
            },
        }
    }
}

/// What the monitor holds after a top-of-book update: one whose four
/// numbers are all in range is counted, and its prices are remembered; any
/// other changes nothing.
pub open spec fn monitor_after_book(
    s: MonitorState,
    bid_price: i64,
    bid_quantity: i64,
    ask_price: i64,
    ask_quantity: i64,
) -> MonitorState {
    if in_range(bid_price) && in_range(bid_quantity) && in_range(ask_price) && in_range(
        ask_quantity,
    ) {
        MonitorState {
            last_bid: Some(bid_price),
            last_ask: Some(ask_price),
            book_count: raised(s.book_count, 1),
            ..s
        }
    } else {
        s
    }
}

/// What the monitor holds after a reset: its detectors and windows are
/// empty and the last price is forgotten; the counters, the time of the last
/// alert and the volume multiplier stay.
pub open spec fn monitor_cleared(s: MonitorState) -> MonitorState {
    MonitorState {
        price_detector_window: Seq::empty(),
        price_detector_last: None,
        volume_detector_window: Seq::empty(),
        flash_crash_window: Seq::empty(),
        pump_dump_window: Seq::empty(),
        price_window: Seq::empty(),
        volume_window: Seq::empty(),
        price_change_window: Seq::empty(),
        last_price: None,
        last_bid: None,
        last_ask: None,
        ..s
    }
}

/// The counters and latest statistics of one instrument.
#[derive(Clone, Copy, Debug, PartialEq, Eq, Structural)]
pub struct InstrumentStats {
    pub trade_count: u64,
    pub book_count: u64,
    pub total_volume: i128,
    pub anomaly_count: u64,
    pub last_price: Option<i64>,
    pub last_bid: Option<i64>,
    pub last_ask: Option<i64>,
    pub last_alert_at: Option<i64>,
    pub dynamic_volume_threshold: i64,
    pub price: Option<Statistics>,
    pub volume: Option<Statistics>,
}

/// The statistics that a monitor reports of what it holds.
pub open spec fn stats_of(s: MonitorState) -> InstrumentStats {
    InstrumentStats {
        trade_count: s.trade_count,
        book_count: s.book_count,
        total_volume: s.total_volume,
        anomaly_count: s.anomaly_count,
        last_price: s.last_price,
        last_bid: s.last_bid,
        last_ask: s.last_ask,
        last_alert_at: s.last_alert_at,
        dynamic_volume_threshold: s.dynamic_volume_threshold,
        price: statistics_of(s.price_window),
        volume: statistics_of(s.volume_window),
    }
}

/// What a monitor of a new instrument holds.
pub open spec fn fresh_monitor(config: MonitorConfig, symbol: Seq<char>, exchange: Seq<char>) -> MonitorState {
    MonitorState {
        config,
        symbol,
        exchange,
        price_detector_window: Seq::empty(),
        price_detector_last: None,
        volume_detector_window: Seq::empty(),
        flash_crash_window: Seq::empty(),
        pump_dump_window: Seq::empty(),
        price_window: Seq::empty(),
        volume_window: Seq::empty(),
        price_change_window: Seq::empty(),
        last_price: None,
        last_alert_at: None,
        last_bid: None,
        last_ask: None,
        trade_count: 0,
        book_count: 0,
        total_volume: 0,
        anomaly_count: 0,
        dynamic_volume_threshold: config.volume_multiplier_base,
    }
}

fn raise(count: u64, by: usize) -> (r: u64)
    ensures
        r == raised(count, by as nat),
{
    let by64: u64 = by as u64;
    if by64 > u64::MAX - count {
        u64::MAX
    } else {
        count + by64
    }
}

fn accumulate(total: i128, volume: i64) -> (r: i128)
    requires
        -TOTAL_VOLUME_CAP <= total <= TOTAL_VOLUME_CAP,
    ensures
        r == accumulated(total, volume),
        -TOTAL_VOLUME_CAP <= r <= TOTAL_VOLUME_CAP,
{
    let t: i128 = total + volume as i128;
    if t > TOTAL_VOLUME_CAP {
        TOTAL_VOLUME_CAP
    } else if t < -TOTAL_VOLUME_CAP {
        -TOTAL_VOLUME_CAP
    } else {
        t
    }
}

/// Makes one alert of the findings let through.
fn combine(kept: &Vec<AnomalyDetection>, now: i64, id: u128) -> (r: AnomalyDetection)
    requires
        kept@.len() > 0,
    ensures
        r@ == combined(records(kept@), now, id),
{
    let ghost all = records(kept@);
    let mut severity = AnomalySeverity::Low.worst(kept[0].severity);
    let mut description = kept[0].description.clone();
    let mut i: usize = 1;
    proof {
        reveal_with_fuel(worst_of, 2);
    }
    while i < kept.len()
        invariant
            1 <= i <= kept@.len(),
            all == records(kept@),
            severity == worst_of(all.subrange(0, i as int)),
            description@ == joined(all.subrange(0, i as int)),
        decreases kept@.len() - i,
    {
        proof {
            assert(all.subrange(0, i + 1).drop_last() =~= all.subrange(0, i as int));
        }
        severity = severity.worst(kept[i].severity);
        description.append("\n");
        description.append(kept[i].description.as_str());
        i = i + 1;
    }
    assert(all.subrange(0, kept@.len() as int) =~= all);
    AnomalyDetection {
        id,
        timestamp: now,
        symbol: kept[0].symbol.clone(),
        exchange: kept[0].exchange.clone(),
        anomaly_type: kept[0].anomaly_type,
        severity,
        metrics: kept[0].metrics,
        description,
    }
}

/// Watches one instrument: it feeds every trade to its detectors and shared
/// windows, and lets through at most one alert per trade.
#[derive(Debug)]
pub struct InstrumentMonitor {
    config: MonitorConfig,
    symbol: String,
    exchange: String,
    price_detector: PriceAnomalyDetector,
    volume_detector: VolumeAnomalyDetector,
    flash_crash: FlashCrashDetector,
    pump_dump: PumpDumpDetector,
    price_window: TimeSeriesWindow,
    volume_window: TimeSeriesWindow,
    price_change_window: TimeSeriesWindow,
    last_price: Option<i64>,
    last_alert_at: Option<i64>,
    last_bid: Option<i64>,
    last_ask: Option<i64>,
    trade_count: u64,
    book_count: u64,
    total_volume: i128,
    anomaly_count: u64,
    dynamic_volume_threshold: i64,
}

impl View for InstrumentMonitor {
    type V = MonitorState;

    closed spec fn view(&self) -> MonitorState {
        MonitorState {
            config: self.config,
            symbol: self.symbol@,
            exchange: self.exchange@,
            price_detector_window: self.price_detector.window(),
            price_detector_last: self.price_detector.last_price(),
            volume_detector_window: self.volume_detector.window(),
            flash_crash_window: self.flash_crash.window(),
            pump_dump_window: self.pump_dump.window(),
            price_window: self.price_window@,
            volume_window: self.volume_window@,
            price_change_window: self.price_change_window@,
            last_price: self.last_price,
            last_alert_at: self.last_alert_at,
            last_bid: self.last_bid,
            last_ask: self.last_ask,
            trade_count: self.trade_count,
            book_count: self.book_count,
            total_volume: self.total_volume,
            anomaly_count: self.anomaly_count,
            dynamic_volume_threshold: self.dynamic_volume_threshold,
        }
    }
}

impl InstrumentMonitor {
    /// The monitor's invariant.
    pub closed spec fn valid(&self) -> bool {
        &&& self.config.wf()
        &&& self.price_detector.valid()
        &&& self.volume_detector.valid()
        &&& self.flash_crash.valid()
        &&& self.pump_dump.valid()
        &&& self.price_detector.config() == self.config.price
        &&& self.volume_detector.config() == self.config.volume
        &&& self.flash_crash.config() == self.config.flash_crash
        &&& self.pump_dump.config() == self.config.pump_dump
        &&& self.price_detector.symbol() == self.symbol@
        &&& self.volume_detector.symbol() == self.symbol@
        &&& self.flash_crash.symbol() == self.symbol@
        &&& self.pump_dump.symbol() == self.symbol@
        &&& self.price_detector.exchange() == self.exchange@
        &&& self.volume_detector.exchange() == self.exchange@
        &&& self.flash_crash.exchange() == self.exchange@
        &&& self.pump_dump.exchange() == self.exchange@
        &&& self.price_window.wf()
        &&& self.volume_window.wf()
        &&& self.price_change_window.wf()
        &&& self.price_window.capacity() == self.config.window_size
        &&& self.volume_window.capacity() == self.config.window_size
        &&& self.price_change_window.capacity() == self.config.window_size
        &&& (self.last_price matches Some(l) ==> in_range(l))
        &&& -TOTAL_VOLUME_CAP <= self.total_volume <= TOTAL_VOLUME_CAP
    }

    /// What the invariant says, for callers that cannot see the fields: the
    /// configuration is well formed, every window holds values in range, the
    /// shared windows hold no more than the configured size, and the last
    /// price and the total volume are within their bounds.
    pub proof fn lemma_valid(&self)
        requires
            self.valid(),
        ensures
            self@.config.wf(),
            all_in_range(self@.price_detector_window),
            all_in_range(self@.volume_detector_window),
            all_in_range(self@.flash_crash_window),
            all_in_range(self@.pump_dump_window),
            all_in_range(self@.price_window),
            all_in_range(self@.volume_window),
            all_in_range(self@.price_change_window),
            self@.price_window.len() <= self@.config.window_size,
            self@.volume_window.len() <= self@.config.window_size,
            self@.price_change_window.len() <= self@.config.window_size,
            self@.last_price matches Some(l) ==> in_range(l),
            -TOTAL_VOLUME_CAP <= self@.total_volume <= TOTAL_VOLUME_CAP,
    {
        self.price_detector.lemma_valid();
        self.volume_detector.lemma_valid();
        self.flash_crash.lemma_valid();
        self.pump_dump.lemma_valid();
        self.price_window.lemma_wf();
        self.volume_window.lemma_wf();
        self.price_change_window.lemma_wf();
    }

    /// A monitor of a new instrument.
    pub fn new(config: MonitorConfig, symbol: &str, exchange: &str) -> (m: Self)
        requires
            config.wf(),
        ensures
            m.valid(),
            m@ == fresh_monitor(config, symbol@, exchange@),
    {
        InstrumentMonitor {
            config,
            symbol: String::from_str(symbol),
            exchange: String::from_str(exchange),
            price_detector: PriceAnomalyDetector::new(
                config.price,
                String::from_str(symbol),
                String::from_str(exchange),
            ),
            volume_detector: VolumeAnomalyDetector::new(
                config.volume,
                String::from_str(symbol),
                String::from_str(exchange),
            ),
            flash_crash: FlashCrashDetector::new(
                config.flash_crash,
                String::from_str(symbol),
                String::from_str(exchange),
            ),
            pump_dump: PumpDumpDetector::new(
                config.pump_dump,
                String::from_str(symbol),
                String::from_str(exchange),
            ),
            price_window: TimeSeriesWindow::new(config.window_size),
            volume_window: TimeSeriesWindow::new(config.window_size),
            price_change_window: TimeSeriesWindow::new(config.window_size),
            last_price: None,
            last_alert_at: None,
            last_bid: None,
            last_ask: None,
            trade_count: 0,
            book_count: 0,
            total_volume: 0,
            anomaly_count: 0,
            dynamic_volume_threshold: config.volume_multiplier_base,
        }
    }

    /// Takes one trade, and emits at most one alert for it, under the
    /// identifier `id`.
    #[verifier::rlimit(50)]
    pub fn observe_trade_with_id(&mut self, price: i64, quantity: i64, exchange_time: i64, id: u128) -> (r:
        Vec<AnomalyDetection>)
        requires
            old(self).valid(),
        ensures
            final(self).valid(),
            final(self)@ == monitor_after(old(self)@, price, quantity, exchange_time),
            records(r@) == monitor_emits(old(self)@, price, quantity, exchange_time, id),
    {
        let mut out: Vec<AnomalyDetection> = Vec::new();
        if !TimeSeriesWindow::accepts(price) || !TimeSeriesWindow::accepts(quantity) {
            return out;
        }
        let now = exchange_time;
        let price_sample = TimeSeriesData { timestamp: now, value: price };
        let volume_sample = TimeSeriesData { timestamp: now, value: quantity };
        self.trade_count = raise(self.trade_count, 1);
        self.total_volume = accumulate(self.total_volume, quantity);
        let price_found = self.price_detector.detect_with_id(&price_sample, id);
        let volume_found = self.volume_detector.detect_with_id(&volume_sample, id);
        let flash_found = self.flash_crash.detect_with_id(&price_sample, id);
        let pump_found = self.pump_dump.detect_with_id(&price_sample, id);
        self.price_window.push(price_sample);
        self.volume_window.push(volume_sample);
        let previous = self.last_price;
        self.last_price = Some(price);
        if self.price_window.len() < self.config.min_samples {
            return out;
        }
        if is_debounced(&self.config, self.last_alert_at, now) {
            return out;
        }
        let change = change_from(previous, price);
        if let Some(c) = change {
            self.price_change_window.push(TimeSeriesData { timestamp: now, value: c });
        }
        let price_keep = price_gate(&self.config, &self.price_change_window, change);
        let (multiplier, volume_keep) = volume_gate(
            &self.config,
            &self.volume_window,
            self.dynamic_volume_threshold,
            quantity,
        );
        self.dynamic_volume_threshold = multiplier;
        let kept = collect(
            price_keep,
            price_found,
            volume_keep,
            volume_found,
            flash_found,
            pump_found,
        );
        self.anomaly_count = raise(self.anomaly_count, kept.len());
        if kept.len() == 0 {
            return out;
        }
        self.last_alert_at = Some(now);
        let alert = combine(&kept, now, id);
        out.push(alert);
        out
    }
}

/// Whether an alert at time `now` comes too soon after the last one.
pub fn is_debounced(config: &MonitorConfig, last_alert_at: Option<i64>, now: i64) -> (r: bool)
    ensures
        r == debounced(*config, last_alert_at, now),
{
    match last_alert_at {
        Some(t) => (now as i128) - (t as i128) < config.debounce_ms as i128,
        None => false,
    }
}

/// The size of the move from the last price to `price`, where there is a
/// last price above 0.
fn change_from(last_price: Option<i64>, price: i64) -> (r: Option<i64>)
    requires
        in_range(price),
        last_price matches Some(l) ==> in_range(l),
    ensures
        match (r, observed_change(last_price, price)) {
            (Some(c), Some(e)) => c == e && 0 <= c <= RATIO_CAP,
            (None, None) => true,
            _ => false,
        },
{
    match last_price {
        Some(l) => if l > 0 {
            Some(ratio_size(ratio(price as i128 - l as i128, l as i128, 10_000)))
        } else {
            None
        },
        None => None,
    }
}

/// Whether a price finding is let through.
fn price_gate(config: &MonitorConfig, changes: &TimeSeriesWindow, change: Option<i64>) -> (r: bool)
    requires
        changes.wf(),
    ensures
        r == price_kept(
            *config,
            changes@,
            match change {
                Some(c) => Some(c as int),
                None => None,
            },
        ),
{
    if !config.dynamic_thresholds {
        return true;
    }
    match (changes.snapshot(), change) {
        (Some(st), Some(c)) => {
            proof {
                changes.lemma_wf();
                crate::stats::lemma_statistics_in_range(changes@);
            }
            let follow: i128 = st.mean as i128 + 2 * (st.std_dev as i128);
            let threshold: i128 = if follow > config.price.percentage_threshold as i128 {
                follow
            } else {
                config.price.percentage_threshold as i128
            };
            (c as i128) > threshold && c > st.percentile_95
        },
        _ => false,
    }
}

/// The volume multiplier after a trade past the gates, and whether a volume
/// finding is let through.
fn volume_gate(config: &MonitorConfig, volumes: &TimeSeriesWindow, current: i64, quantity: i64) -> (r: (
    i64,
    bool,
))
    requires
        volumes.wf(),
        0 <= config.volume_multiplier_base <= config.volume_multiplier_max,
    ensures
        r.0 == volume_multiplier(*config, current, statistics_of(volumes@)),
        r.1 == volume_kept(*config, statistics_of(volumes@), r.0 as int, quantity),
{
    if !config.dynamic_thresholds {
        return (current, true);
    }
    match volumes.snapshot() {
        Some(st) => {
            proof {
                volumes.lemma_wf();
                crate::stats::lemma_statistics_in_range(volumes@);
            }
            let spread = ratio(st.std_dev as i128, st.mean as i128, 1000);
            let capped: i64 = if spread > 2000 {
                2000
            } else {
                spread
            };
            proof {
                lemma_product_fits(1500 + capped as int, config.volume_multiplier_base as int);
            }
            let product: i128 = (config.volume_multiplier_base as i128) * (1500 + capped as i128);
            let multiplier: i64 = if product < 0 {
                config.volume_multiplier_base
            } else {
                let scaled: i128 = product / 1000;
                if scaled < config.volume_multiplier_base as i128 {
                    config.volume_multiplier_base
                } else if scaled > config.volume_multiplier_max as i128 {
                    config.volume_multiplier_max
                } else {
                    scaled as i64
                }
            };
            proof {
                lemma_product_fits(st.mean as int, multiplier as int);
            }
            let keep = (quantity as i128) * 1000 > (st.mean as i128) * (multiplier as i128) && (
            quantity as i128) * 2 > (st.percentile_95 as i128) * 3;
            (multiplier, keep)
        },
        None => (current, false),
    }
}

/// The findings that are let through, in the order price, volume, flash
/// crash, pump-and-dump.
fn collect(
    price_keep: bool,
    price_found: Option<AnomalyDetection>,
    volume_keep: bool,
    volume_found: Option<AnomalyDetection>,
    flash_found: Option<AnomalyDetection>,
    pump_found: Option<AnomalyDetection>,
) -> (kept: Vec<AnomalyDetection>)
    ensures
        records(kept@) == kept_if(price_keep, view_of(price_found)) + kept_if(
            volume_keep,
            view_of(volume_found),
        ) + maybe(view_of(flash_found)) + maybe(view_of(pump_found)),
{
    let mut kept: Vec<AnomalyDetection> = Vec::new();
    assert(records(kept@) =~= Seq::<AnomalyRecord>::empty());
    if price_keep {
        if let Some(a) = price_found {
            let ghost was = kept@;
            kept.push(a);
        }
    }
    if volume_keep {
        if let Some(a) = volume_found {
            let ghost was = kept@;
            kept.push(a);
        }
    }
    assert(records(kept@) =~= kept_if(price_keep, view_of(price_found)) + kept_if(
        volume_keep,
        view_of(volume_found),
    ));
    if let Some(a) = flash_found {
        let ghost was = kept@;
        kept.push(a);
    }
    if let Some(a) = pump_found {
        let ghost was = kept@;
        kept.push(a);
    }
    assert(records(kept@) =~= kept_if(price_keep, view_of(price_found)) + kept_if(
        volume_keep,
        view_of(volume_found),
    ) + maybe(view_of(flash_found)) + maybe(view_of(pump_found)));
    kept
}

/// What was found, as a mathematical value.
pub open spec fn view_of(found: Option<AnomalyDetection>) -> Option<AnomalyRecord> {
    match found {
        Some(a) => Some(a@),
        None => None,
    }
}

proof fn lemma_product_fits(mean: int, multiplier: int)
    by (nonlinear_arith)
    requires
        -(MAX_VALUE as int) <= mean <= MAX_VALUE,
        -0x8000_0000_0000_0000 <= multiplier <= 0x8000_0000_0000_0000,
    ensures
        -(MAX_VALUE * 0x8000_0000_0000_0000) <= mean * multiplier <= MAX_VALUE
            * 0x8000_0000_0000_0000,
        multiplier * mean == mean * multiplier,
{
}

/// How many findings are let through does not depend on the identifier that
/// they are given.
pub proof fn lemma_findings_count(
    s: MonitorState,
    price: i64,
    quantity: i64,
    now: i64,
    id: u128,
    other: u128,
)
    ensures
        findings_kept(s, price, quantity, now, id).len() == findings_kept(
            s,
            price,
            quantity,
            now,
            other,
        ).len(),
{
}

impl InstrumentMonitor {
    /// Takes one trade, and emits at most one alert for it, under a new
    /// random identifier.
    pub fn observe_trade(&mut self, price: i64, quantity: i64, exchange_time: i64) -> (r: Vec<
        AnomalyDetection,
    >)
        requires
            old(self).valid(),
        ensures
            final(self).valid(),
            final(self)@ == monitor_after(old(self)@, price, quantity, exchange_time),
            crate::anomaly::records_under_some_ids(
                r@,
                monitor_emits(old(self)@, price, quantity, exchange_time, 0),
            ),
    {
        let found = self.observe_trade_with_id(price, quantity, exchange_time, 0);
        crate::anomaly::restamp(found)
    }

    /// Takes one top-of-book update.  Nothing is emitted for it.
    pub fn observe_book_top(
        &mut self,
        bid_price: i64,
        bid_quantity: i64,
        ask_price: i64,
        ask_quantity: i64,
    ) -> (r: Vec<AnomalyDetection>)
        requires
            old(self).valid(),
        ensures
            final(self).valid(),
            final(self)@ == monitor_after_book(
                old(self)@,
                bid_price,
                bid_quantity,
                ask_price,
                ask_quantity,
            ),
            r@.len() == 0,
    {
        if TimeSeriesWindow::accepts(bid_price) && TimeSeriesWindow::accepts(bid_quantity)
            && TimeSeriesWindow::accepts(ask_price) && TimeSeriesWindow::accepts(ask_quantity) {
            self.last_bid = Some(bid_price);
            self.last_ask = Some(ask_price);
            self.book_count = raise(self.book_count, 1);
        }
        Vec::new()
    }

    /// The counters and the latest statistics.
    pub fn snapshot_stats(&self) -> (r: InstrumentStats)
        requires
            self.valid(),
        ensures
            r == stats_of(self@),
    {
        InstrumentStats {
            trade_count: self.trade_count,
            book_count: self.book_count,
            total_volume: self.total_volume,
            anomaly_count: self.anomaly_count,
            last_price: self.last_price,
            last_bid: self.last_bid,
            last_ask: self.last_ask,
            last_alert_at: self.last_alert_at,
            dynamic_volume_threshold: self.dynamic_volume_threshold,
            price: self.price_window.snapshot(),
            volume: self.volume_window.snapshot(),
        }
    }

    /// Empties the detectors and the windows and forgets the last prices.
    /// The counters and the time of the last alert stay.
    pub fn reset(&mut self)
        requires
            old(self).valid(),
        ensures
            final(self).valid(),
            final(self)@ == monitor_cleared(old(self)@),
    {
        self.price_detector.reset();
        self.volume_detector.reset();
        self.flash_crash.reset();
        self.pump_dump.reset();
        self.price_window = TimeSeriesWindow::new(self.config.window_size);
        self.volume_window = TimeSeriesWindow::new(self.config.window_size);
        self.price_change_window = TimeSeriesWindow::new(self.config.window_size);
        self.last_price = None;
        self.last_bid = None;
        self.last_ask = None;
    }

    /// The number of alerts' findings counted so far.
    pub fn anomaly_count(&self) -> (n: u64)
        ensures
            n == self@.anomaly_count,
    {
        self.anomaly_count
    }

    /// The time of the last alert, if there was one.
    pub fn last_alert_at(&self) -> (t: Option<i64>)
        ensures
            t == self@.last_alert_at,
    {
        self.last_alert_at
    }
}

/// One thing that can happen to a monitor.
pub enum MonitorInput {
    Trade { price: i64, quantity: i64, time: i64, id: u128 },
    BookTop { bid_price: i64, bid_quantity: i64, ask_price: i64, ask_quantity: i64 },
    Reset,
}

/// What a monitor holds after an input.
pub open spec fn monitor_apply(s: MonitorState, input: MonitorInput) -> MonitorState {
    match input {
        MonitorInput::Trade { price, quantity, time, id } => monitor_after(s, price, quantity, time),
        MonitorInput::BookTop {
            bid_price,
            bid_quantity,
            ask_price,
            ask_quantity,
        } => monitor_after_book(s, bid_price, bid_quantity, ask_price, ask_quantity),
        MonitorInput::Reset => monitor_cleared(s),
    }
}

/// What a monitor emits for an input.
pub open spec fn monitor_output(s: MonitorState, input: MonitorInput) -> Seq<AnomalyRecord> {
    match input {
        MonitorInput::Trade { price, quantity, time, id } => monitor_emits(
            s,
            price,
            quantity,
            time,
            id,
        ),
        _ => Seq::empty(),
    }
}

/// What a monitor holds after a sequence of inputs.
pub open spec fn monitor_run(s: MonitorState, inputs: Seq<MonitorInput>) -> MonitorState
    decreases inputs.len(),
{
    if inputs.len() == 0 {
        s
    } else {
        monitor_apply(monitor_run(s, inputs.drop_last()), inputs.last())
    }
}

/// Every alert that a monitor emits over a sequence of inputs, in order.
pub open spec fn monitor_alerts(s: MonitorState, inputs: Seq<MonitorInput>) -> Seq<AnomalyRecord>
    decreases inputs.len(),
{
    if inputs.len() == 0 {
        Seq::empty()
    } else {
        monitor_alerts(s, inputs.drop_last()) + monitor_output(
            monitor_run(s, inputs.drop_last()),
            inputs.last(),
        )
    }
}

/// The time of the last alert after some alerts were emitted.
pub open spec fn last_alert_after(before: Option<i64>, alerts: Seq<AnomalyRecord>) -> Option<i64> {
    if alerts.len() == 0 {
        before
    } else {
        Some(alerts.last().timestamp)
    }
}

/// Debouncing.  Whatever a monitor is fed, between any two alerts that it
/// emits at least the configured time passes, counted in the times of the
/// trades that raised them; and as much passes between the last alert before
/// and each of them.  The monitor remembers the time of the latest alert.
pub proof fn lemma_alerts_spaced(s: MonitorState, inputs: Seq<MonitorInput>)
    requires
        0 <= s.config.debounce_ms,
    ensures
        monitor_run(s, inputs).config == s.config,
        monitor_run(s, inputs).last_alert_at == last_alert_after(
            s.last_alert_at,
            monitor_alerts(s, inputs),
        ),
        forall|i: int, j: int|
            0 <= i < j < monitor_alerts(s, inputs).len() ==> monitor_alerts(s, inputs)[j].timestamp
                - monitor_alerts(s, inputs)[i].timestamp >= s.config.debounce_ms,
        s.last_alert_at matches Some(t) ==> forall|i: int|
            0 <= i < monitor_alerts(s, inputs).len() ==> (#[trigger] monitor_alerts(
                s,
                inputs,
            )[i]).timestamp - t >= s.config.debounce_ms,
    decreases inputs.len(),
{
    if inputs.len() > 0 {
        let head = inputs.drop_last();
        lemma_alerts_spaced(s, head);
        let mid = monitor_run(s, head);
        let earlier = monitor_alerts(s, head);
        let fresh = monitor_output(mid, inputs.last());
        let all = monitor_alerts(s, inputs);
        assert(all == earlier + fresh);
        assert(fresh.len() <= 1);
        if fresh.len() == 1 {
            let now = fresh[0].timestamp;
            assert(!debounced(mid.config, mid.last_alert_at, now));
            assert(all.last() == fresh[0]);
            assert forall|i: int, j: int| 0 <= i < j < all.len() implies all[j].timestamp
                - all[i].timestamp >= s.config.debounce_ms by {
                if j < earlier.len() {
                    assert(all[i] == earlier[i] && all[j] == earlier[j]);
                } else {
                    assert(all[i] == earlier[i]);
                    assert(mid.last_alert_at == Some(earlier.last().timestamp));
                    if i < earlier.len() - 1 {
                        assert(earlier[earlier.len() - 1].timestamp - earlier[i].timestamp
                            >= s.config.debounce_ms);
                    }
                }
            }
            if let Some(t) = s.last_alert_at {
                assert forall|i: int| 0 <= i < all.len() implies (#[trigger] all[i]).timestamp - t
                    >= s.config.debounce_ms by {
                    if i < earlier.len() {
                        assert(all[i] == earlier[i]);
                    } else if earlier.len() > 0 {
                        assert(mid.last_alert_at == Some(earlier.last().timestamp));
                        assert(earlier[earlier.len() - 1] == earlier.last());
                    }
                }
            }
        } else {
            assert(all =~= earlier);
        }
    }
}

/// Time order.  Whatever a monitor is fed, the alerts that it emits carry
/// times that never go back.
pub proof fn lemma_alerts_in_time_order(s: MonitorState, inputs: Seq<MonitorInput>)
    requires
        0 <= s.config.debounce_ms,
    ensures
        forall|i: int, j: int|
            0 <= i <= j < monitor_alerts(s, inputs).len() ==> monitor_alerts(s, inputs)[i].timestamp
                <= monitor_alerts(s, inputs)[j].timestamp,
{
    lemma_alerts_spaced(s, inputs);
}

/// Nothing is emitted while the shared price window holds fewer samples
/// than the monitor asks for.
pub proof fn lemma_quiet_below_min_samples(
    s: MonitorState,
    price: i64,
    quantity: i64,
    now: i64,
    id: u128,
)
    ensures
        monitor_after(s, price, quantity, now).price_window.len() < s.config.min_samples
            ==> monitor_emits(s, price, quantity, now, id).len() == 0,
{
}

/// Counters never go back.  Whatever a monitor is fed, it has counted at
/// least as many trades, book updates and findings after as before.
pub proof fn lemma_counters_never_fall(s: MonitorState, inputs: Seq<MonitorInput>)
    ensures
        monitor_run(s, inputs).trade_count >= s.trade_count,
        monitor_run(s, inputs).book_count >= s.book_count,
        monitor_run(s, inputs).anomaly_count >= s.anomaly_count,
    decreases inputs.len(),
{
    if inputs.len() > 0 {
        lemma_counters_never_fall(s, inputs.drop_last());
        let mid = monitor_run(s, inputs.drop_last());
        let after = monitor_apply(mid, inputs.last());
        assert(after.trade_count >= mid.trade_count);
        assert(after.book_count >= mid.book_count);
        assert(after.anomaly_count >= mid.anomaly_count);
    }
}

} // verus!
