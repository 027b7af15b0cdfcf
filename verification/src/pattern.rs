//! Detectors of price patterns: the flash crash and the pump-and-dump.

use crate::anomaly::{
    reports, reports_under_some_id, AnomalyDetection, AnomalyMetrics, AnomalyRecord,
    AnomalySeverity,
};
use crate::arith::{ratio, ratio_spec};
use crate::detector::AnomalyDetector;
use crate::event::AnomalyType;
use crate::outside::fresh_id;
use crate::text::{decimal, push_decimal};
use crate::window::{
    all_in_range, first_peak, in_range, lemma_push_grows, max_value,
    min_value, push_spec, tail, TimeSeriesData, TimeSeriesWindow, MAX_WINDOW,
};
use vstd::prelude::*;
use vstd::string::*;

verus! {

/// How the flash-crash rule is set: how many of the latest prices it looks
/// at, the fall from their highest to their lowest that it asks for, and the
/// share of the highest that the latest price must not exceed (both in
/// hundredths of a percent).
#[derive(Clone, Copy, Debug, PartialEq, Eq, Structural)]
pub struct FlashCrashConfig {
    pub periods: usize,
    pub min_drop: i64,
    pub max_share: i64,
}

impl Default for FlashCrashConfig {
    fn default() -> (c: Self)
        ensures
            c == (FlashCrashConfig { periods: 5, min_drop: 1000, max_share: 9000 }),
    {
        FlashCrashConfig { periods: 5, min_drop: 1000, max_share: 9000 }
    }
}

/// How the pump-and-dump rule is set: how many of the latest prices it looks
/// at, the rise to the peak and the fall from it that it asks for (in
/// hundredths of a percent), and the positions between which the peak must
/// lie, both excluded.
#[derive(Clone, Copy, Debug, PartialEq, Eq, Structural)]
pub struct PumpDumpConfig {
    pub periods: usize,
    pub min_pump: i64,
    pub min_dump: i64,
    pub peak_after: usize,
    pub peak_before: usize,
}

impl Default for PumpDumpConfig {
    fn default() -> (c: Self)
        ensures
            c == (PumpDumpConfig {
                periods: 20,
                min_pump: 2000,
                min_dump: 1500,
                peak_after: 5,
                peak_before: 15,
            }),
    {
        PumpDumpConfig { periods: 20, min_pump: 2000, min_dump: 1500, peak_after: 5, peak_before: 15 }
    }
}

/// The fall from the highest to the lowest of the prices, as a share of the
/// highest in hundredths of a percent; 0 where the highest is 0.
pub open spec fn crash_drop(recent: Seq<TimeSeriesData>) -> int {
    ratio_spec(max_value(recent) - min_value(recent), max_value(recent), 10_000)
}

/// Whether the prices show a flash crash: there are as many as the rule looks
/// at, the latest of them fell far enough from highest to lowest, and the
/// latest price is low enough against the highest.
pub open spec fn flash_crash_fires(config: FlashCrashConfig, prices: Seq<TimeSeriesData>) -> bool {
    let recent = tail(prices, config.periods as nat);
    &&& config.periods >= 1
    &&& prices.len() >= config.periods
    &&& crash_drop(recent) >= config.min_drop
    &&& recent.last().value * 10_000 <= config.max_share * max_value(recent)
}

/// The text of a flash crash.
pub open spec fn flash_crash_description(
    exchange: Seq<char>,
    symbol: Seq<char>,
    drop: int,
    periods: int,
) -> Seq<char> {
    "Flash crash detected for "@ + exchange + "/"@ + symbol + ": "@ + decimal(drop)
        + " bp drop in "@ + decimal(periods) + " periods"@
}

/// The anomaly that is reported for a flash crash in `prices`.
pub open spec fn flash_crash_record(
    config: FlashCrashConfig,
    symbol: Seq<char>,
    exchange: Seq<char>,
    prices: Seq<TimeSeriesData>,
    timestamp: i64,
    id: u128,
) -> AnomalyRecord {
    let recent = tail(prices, config.periods as nat);
    let hi = max_value(recent);
    let now = recent.last().value;
    let drop = crash_drop(recent);
    AnomalyRecord {
        id,
        timestamp,
        symbol,
        exchange,
        anomaly_type: AnomalyType::FlashCrash,
        severity: AnomalySeverity::Critical,
        metrics: AnomalyMetrics {
            current_value: now,
            expected_value: hi as i64,
            deviation: (now - hi) as i64,
            z_score: None,
            percentage_change: Some((-drop) as i64),
            historical_avg: None,
            historical_std: None,
        },
        description: flash_crash_description(exchange, symbol, drop, config.periods as int),
    }
}

/// What the flash-crash rule reports of `prices`.
pub open spec fn flash_crash_detection(
    config: FlashCrashConfig,
    symbol: Seq<char>,
    exchange: Seq<char>,
    prices: Seq<TimeSeriesData>,
    timestamp: i64,
    id: u128,
) -> Option<AnomalyRecord> {
    if flash_crash_fires(config, prices) {
        Some(flash_crash_record(config, symbol, exchange, prices, timestamp, id))
    } else {
        None
    }
}

/// Looks for a flash crash in the latest prices of a window.
pub fn check_flash_crash(
    config: &FlashCrashConfig,
    prices: &TimeSeriesWindow,
    symbol: &String,
    exchange: &String,
    timestamp: i64,
    id: u128,
) -> (r: Option<AnomalyDetection>)
    requires
        prices.wf(),
    ensures
        reports(r, flash_crash_detection(*config, symbol@, exchange@, prices@, timestamp, id)),
{
    let n = prices.len();
    if config.periods == 0 || n < config.periods {
        return None;
    }
    let hi = prices.max_of_last(config.periods);
    let lo = prices.min_of_last(config.periods);
    let now = prices.get(n - 1).value;
    let ghost recent = tail(prices@, config.periods as nat);
    proof {
        prices.lemma_wf();
    }
    let drop = ratio(hi as i128 - lo as i128, hi as i128, 10_000);
    proof {
        let share = config.max_share as int;
        let top = hi as int;
        assert(-0x8000_0000_0000_0000 * 0x4000_0000_0000 <= share * top <= 0x8000_0000_0000_0000
            * 0x4000_0000_0000) by (nonlinear_arith)
            requires
                -0x8000_0000_0000_0000 <= share <= 0x8000_0000_0000_0000,
                -0x4000_0000_0000 <= top <= 0x4000_0000_0000,
        ;
    }
    if drop >= config.min_drop && (now as i128) * 10_000 <= (config.max_share as i128) * (
    hi as i128) {
        let mut description = String::from_str("Flash crash detected for ");
        description.append(exchange.as_str());
        description.append("/");
        description.append(symbol.as_str());
        description.append(": ");
        push_decimal(&mut description, drop);
        description.append(" bp drop in ");
        push_decimal(&mut description, config.periods as i64);
        description.append(" periods");
        Some(
            AnomalyDetection {
                id,
                timestamp,
                symbol: symbol.clone(),
                exchange: exchange.clone(),
                anomaly_type: AnomalyType::FlashCrash,
                severity: AnomalySeverity::Critical,
                metrics: AnomalyMetrics {
                    current_value: now,
                    expected_value: hi,
                    deviation: now - hi,
                    z_score: None,
                    percentage_change: Some(-drop),
                    historical_avg: None,
                    historical_std: None,
                },
                description,
            },
        )
    } else {
        None
    }
}

/// The rise from the oldest price to the peak, as a share of the oldest in
/// hundredths of a percent; 0 where the oldest is 0.
pub open spec fn pump_rise(recent: Seq<TimeSeriesData>) -> int {
    ratio_spec(max_value(recent) - recent[0].value, recent[0].value as int, 10_000)
}

/// The fall from the peak to the latest price, as a share of the peak in
/// hundredths of a percent; 0 where the peak is 0.
pub open spec fn dump_fall(recent: Seq<TimeSeriesData>) -> int {
    ratio_spec(max_value(recent) - recent.last().value, max_value(recent), 10_000)
}

/// Whether the prices show a pump-and-dump: there are as many as the rule
/// looks at, the peak of the latest of them (the oldest, where several are
/// highest) lies inside the band, and both the rise to it and the fall from it
/// are large enough.
pub open spec fn pump_dump_fires(config: PumpDumpConfig, prices: Seq<TimeSeriesData>) -> bool {
    let recent = tail(prices, config.periods as nat);
    &&& config.periods >= 1
    &&& prices.len() >= config.periods
    &&& config.peak_after < first_peak(recent) < config.peak_before
    &&& pump_rise(recent) >= config.min_pump
    &&& dump_fall(recent) >= config.min_dump
}

/// The text of a pump-and-dump.
pub open spec fn pump_dump_description(
    exchange: Seq<char>,
    symbol: Seq<char>,
    pump: int,
    dump: int,
) -> Seq<char> {
    "Pump and dump pattern detected for "@ + exchange + "/"@ + symbol + ": +"@ + decimal(pump)
        + " bp pump, -"@ + decimal(dump) + " bp dump"@
}

/// The anomaly that is reported for a pump-and-dump in `prices`.
pub open spec fn pump_dump_record(
    config: PumpDumpConfig,
    symbol: Seq<char>,
    exchange: Seq<char>,
    prices: Seq<TimeSeriesData>,
    timestamp: i64,
    id: u128,
) -> AnomalyRecord {
    let recent = tail(prices, config.periods as nat);
    let before = recent[0].value;
    let after = recent.last().value;
    AnomalyRecord {
        id,
        timestamp,
        symbol,
        exchange,
        anomaly_type: AnomalyType::PumpDump,
        severity: AnomalySeverity::Critical,
        metrics: AnomalyMetrics {
            current_value: after,
            expected_value: before,
            deviation: (after - before) as i64,
            z_score: None,
            percentage_change: Some(pump_rise(recent) as i64),
            historical_avg: None,
            historical_std: None,
        },
        description: pump_dump_description(exchange, symbol, pump_rise(recent), dump_fall(recent)),
    }
}

/// What the pump-and-dump rule reports of `prices`.
pub open spec fn pump_dump_detection(
    config: PumpDumpConfig,
    symbol: Seq<char>,
    exchange: Seq<char>,
    prices: Seq<TimeSeriesData>,
    timestamp: i64,
    id: u128,
) -> Option<AnomalyRecord> {
    if pump_dump_fires(config, prices) {
        Some(pump_dump_record(config, symbol, exchange, prices, timestamp, id))
    } else {
        None
    }
}

/// Looks for a pump-and-dump in the latest prices of a window.
pub fn check_pump_dump(
    config: &PumpDumpConfig,
    prices: &TimeSeriesWindow,
    symbol: &String,
    exchange: &String,
    timestamp: i64,
    id: u128,
) -> (r: Option<AnomalyDetection>)
    requires
        prices.wf(),
    ensures
        reports(r, pump_dump_detection(*config, symbol@, exchange@, prices@, timestamp, id)),
{
    let n = prices.len();
    if config.periods == 0 || n < config.periods {
        return None;
    }
    let peak_at = prices.peak_of_last(config.periods);
    if !(config.peak_after < peak_at && peak_at < config.peak_before) {
        return None;
    }
    let start = n - config.periods;
    let peak = prices.max_of_last(config.periods);
    let before = prices.get(start).value;
    let after = prices.get(n - 1).value;
    proof {
        prices.lemma_wf();
    }
    let pump = ratio(peak as i128 - before as i128, before as i128, 10_000);
    let dump = ratio(peak as i128 - after as i128, peak as i128, 10_000);
    if pump >= config.min_pump && dump >= config.min_dump {
        let mut description = String::from_str("Pump and dump pattern detected for ");
        description.append(exchange.as_str());
        description.append("/");
        description.append(symbol.as_str());
        description.append(": +");
        push_decimal(&mut description, pump);
        description.append(" bp pump, -");
        push_decimal(&mut description, dump);
        description.append(" bp dump");
        Some(
            AnomalyDetection {
                id,
                timestamp,
                symbol: symbol.clone(),
                exchange: exchange.clone(),
                anomaly_type: AnomalyType::PumpDump,
                severity: AnomalySeverity::Critical,
                metrics: AnomalyMetrics {
                    current_value: after,
                    expected_value: before,
                    deviation: after - before,
                    z_score: None,
                    percentage_change: Some(pump),
                    historical_avg: None,
                    historical_std: None,
                },
                description,
            },
        )
    } else {
        None
    }
}

/// Reports flash crashes among the latest prices.
#[derive(Debug)]
pub struct FlashCrashDetector {
    config: FlashCrashConfig,
    symbol: String,
    exchange: String,
    window: TimeSeriesWindow,
}

impl FlashCrashDetector {
    /// The configuration that the detector was made with.
    pub closed spec fn config(&self) -> FlashCrashConfig {
        self.config
    }

    /// The symbol that the detector watches.
    pub closed spec fn symbol(&self) -> Seq<char> {
        self.symbol@
    }

    /// The exchange that the detector watches.
    pub closed spec fn exchange(&self) -> Seq<char> {
        self.exchange@
    }

    /// The prices in the detector's window, oldest first.
    pub closed spec fn window(&self) -> Seq<TimeSeriesData> {
        self.window@
    }

    /// The detector's invariant.
    pub closed spec fn valid(&self) -> bool {
        &&& self.window.wf()
        &&& self.window.capacity() == self.config.periods
    }

    /// What the invariant says, for callers that cannot see the fields: the
    /// window holds no more prices than the rule looks at, all in range.
    pub proof fn lemma_valid(&self)
        requires
            self.valid(),
        ensures
            1 <= self.config().periods <= MAX_WINDOW,
            self.window().len() <= self.config().periods,
            all_in_range(self.window()),
    {
        self.window.lemma_wf();
    }

    /// A detector with an empty window, which holds as many prices as the
    /// rule looks at.
    pub fn new(config: FlashCrashConfig, symbol: String, exchange: String) -> (d: Self)
        requires
            1 <= config.periods <= MAX_WINDOW,
        ensures
            d.valid(),
            d.config() == config,
            d.symbol() == symbol@,
            d.exchange() == exchange@,
            d.window() == Seq::<TimeSeriesData>::empty(),
    {
        FlashCrashDetector { window: TimeSeriesWindow::new(config.periods), config, symbol, exchange }
    }

    /// Takes one price and reports a flash crash, under the identifier `id`,
    /// if the window then shows one.  A value out of range is passed over.
    pub fn detect_with_id(&mut self, data: &TimeSeriesData, id: u128) -> (r: Option<
        AnomalyDetection,
    >)
        requires
            old(self).valid(),
        ensures
            final(self).valid(),
            final(self).config() == old(self).config(),
            final(self).symbol() == old(self).symbol(),
            final(self).exchange() == old(self).exchange(),
            final(self).window() == push_spec(
                old(self).window(),
                old(self).config().periods as nat,
                *data,
            ),
            reports(
                r,
                if in_range(data.value) {
                    flash_crash_detection(
                        old(self).config(),
                        old(self).symbol(),
                        old(self).exchange(),
                        final(self).window(),
                        data.timestamp,
                        id,
                    )
                } else {
                    None
                },
            ),
    {
        if !TimeSeriesWindow::accepts(data.value) {
            return None;
        }
        self.window.push(*data);
        check_flash_crash(&self.config, &self.window, &self.symbol, &self.exchange, data.timestamp, id)
    }
}

impl AnomalyDetector for FlashCrashDetector {
    open spec fn wf(&self) -> bool {
        self.valid()
    }

    open spec fn samples(&self) -> Seq<TimeSeriesData> {
        self.window()
    }

    open spec fn min_samples(&self) -> nat {
        self.config().periods as nat
    }

    /// Takes one price and reports a flash crash, under a new random
    /// identifier, if the window then shows one.
    fn detect(&mut self, data: &TimeSeriesData) -> (r: Option<AnomalyDetection>)
        ensures
            final(self).config() == old(self).config(),
            final(self).symbol() == old(self).symbol(),
            final(self).exchange() == old(self).exchange(),
            final(self).window() == push_spec(
                old(self).window(),
                old(self).config().periods as nat,
                *data,
            ),
            reports_under_some_id(
                r,
                if in_range(data.value) {
                    flash_crash_detection(
                        old(self).config(),
                        old(self).symbol(),
                        old(self).exchange(),
                        final(self).window(),
                        data.timestamp,
                        0,
                    )
                } else {
                    None
                },
            ),
    {
        proof {
            self.window.lemma_wf();
        }
        match self.detect_with_id(data, 0) {
            Some(found) => Some(found.with_id(fresh_id())),
            None => None,
        }
    }

    fn reset(&mut self)
        ensures
            final(self).config() == old(self).config(),
            final(self).symbol() == old(self).symbol(),
            final(self).exchange() == old(self).exchange(),
    {
        proof {
            self.window.lemma_wf();
        }
        self.window = TimeSeriesWindow::new(self.config.periods);
    }
}

/// Reports pump-and-dump patterns among the latest prices.
#[derive(Debug)]
pub struct PumpDumpDetector {
    config: PumpDumpConfig,
    symbol: String,
    exchange: String,
    window: TimeSeriesWindow,
}

impl PumpDumpDetector {
    /// The configuration that the detector was made with.
    pub closed spec fn config(&self) -> PumpDumpConfig {
        self.config
    }

    /// The symbol that the detector watches.
    pub closed spec fn symbol(&self) -> Seq<char> {
        self.symbol@
    }

    /// The exchange that the detector watches.
    pub closed spec fn exchange(&self) -> Seq<char> {
        self.exchange@
    }

    /// The prices in the detector's window, oldest first.
    pub closed spec fn window(&self) -> Seq<TimeSeriesData> {
        self.window@
    }

    /// The detector's invariant.
    pub closed spec fn valid(&self) -> bool {
        &&& self.window.wf()
        &&& self.window.capacity() == self.config.periods
    }

    /// What the invariant says, for callers that cannot see the fields: the
    /// window holds no more prices than the rule looks at, all in range.
    pub proof fn lemma_valid(&self)
        requires
            self.valid(),
        ensures
            1 <= self.config().periods <= MAX_WINDOW,
            self.window().len() <= self.config().periods,
            all_in_range(self.window()),
    {
        self.window.lemma_wf();
    }

    /// A detector with an empty window, which holds as many prices as the
    /// rule looks at.
    pub fn new(config: PumpDumpConfig, symbol: String, exchange: String) -> (d: Self)
        requires
            1 <= config.periods <= MAX_WINDOW,
        ensures
            d.valid(),
            d.config() == config,
            d.symbol() == symbol@,
            d.exchange() == exchange@,
            d.window() == Seq::<TimeSeriesData>::empty(),
    {
        PumpDumpDetector { window: TimeSeriesWindow::new(config.periods), config, symbol, exchange }
    }

    /// Takes one price and reports a pump-and-dump, under the identifier
    /// `id`, if the window then shows one.  A value out of range is passed
    /// over.
    pub fn detect_with_id(&mut self, data: &TimeSeriesData, id: u128) -> (r: Option<
        AnomalyDetection,
    >)
        requires
            old(self).valid(),
        ensures
            final(self).valid(),
            final(self).config() == old(self).config(),
            final(self).symbol() == old(self).symbol(),
            final(self).exchange() == old(self).exchange(),
            final(self).window() == push_spec(
                old(self).window(),
                old(self).config().periods as nat,
                *data,
            ),
            reports(
                r,
                if in_range(data.value) {
                    pump_dump_detection(
                        old(self).config(),
                        old(self).symbol(),
                        old(self).exchange(),
                        final(self).window(),
                        data.timestamp,
                        id,
                    )
                } else {
                    None
                },
            ),
    {
        if !TimeSeriesWindow::accepts(data.value) {
            return None;
        }
        self.window.push(*data);
        check_pump_dump(&self.config, &self.window, &self.symbol, &self.exchange, data.timestamp, id)
    }
}

impl AnomalyDetector for PumpDumpDetector {
    open spec fn wf(&self) -> bool {
        self.valid()
    }

    open spec fn samples(&self) -> Seq<TimeSeriesData> {
        self.window()
    }

    open spec fn min_samples(&self) -> nat {
        self.config().periods as nat
    }

    /// Takes one price and reports a pump-and-dump, under a new random
    /// identifier, if the window then shows one.
    fn detect(&mut self, data: &TimeSeriesData) -> (r: Option<AnomalyDetection>)
        ensures
            final(self).config() == old(self).config(),
            final(self).symbol() == old(self).symbol(),
            final(self).exchange() == old(self).exchange(),
            final(self).window() == push_spec(
                old(self).window(),
                old(self).config().periods as nat,
                *data,
            ),
            reports_under_some_id(
                r,
                if in_range(data.value) {
                    pump_dump_detection(
                        old(self).config(),
                        old(self).symbol(),
                        old(self).exchange(),
                        final(self).window(),
                        data.timestamp,
                        0,
                    )
                } else {
                    None
                },
            ),
    {
        proof {
            self.window.lemma_wf();
        }
        match self.detect_with_id(data, 0) {
            Some(found) => Some(found.with_id(fresh_id())),
            None => None,
        }
    }

    fn reset(&mut self)
        ensures
            final(self).config() == old(self).config(),
            final(self).symbol() == old(self).symbol(),
            final(self).exchange() == old(self).exchange(),
    {
        proof {
            self.window.lemma_wf();
        }
        self.window = TimeSeriesWindow::new(self.config.periods);
    }
}

} // verus!
