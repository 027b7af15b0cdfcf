//! An analyzer that keeps a history of prices and volumes of one market and
//! looks for four kinds of anomaly in it.

use crate::anomaly::{
    maybe, records, records_under_some_ids, reports, restamp, AnomalyDetection, AnomalyMetrics,
    AnomalyRecord, AnomalySeverity,
};
use crate::arith::{abs_spec, magnitude, ratio, ratio_spec};
use crate::event::AnomalyType;
use crate::outside::now_millis;
use crate::pattern::{
    check_flash_crash, check_pump_dump, flash_crash_detection, pump_dump_detection,
    FlashCrashConfig, PumpDumpConfig,
};
use crate::text::{decimal, push_decimal};
use crate::window::{
    all_in_range, in_range, mean_spec, percent_from_mean_spec, push_spec, sum_values, tail, TimeSeriesData,
    TimeSeriesWindow, MAX_VALUE, MAX_WINDOW,
};
use vstd::prelude::*;
use vstd::string::*;

verus! {

/// How many prices and volumes the analyzer remembers.
pub const HISTORY_SIZE: usize = 1000;

/// How many volumes there must be before an unusual volume is reported.
pub const UNUSUAL_VOLUME_SAMPLES: usize = 30;

/// How many of the latest samples the manipulation rule looks at.
pub const MANIPULATION_PERIODS: usize = 10;

/// The latest volume as a multiple of the mean volume, in thousandths; 0
/// where the mean is 0.
pub open spec fn volume_ratio(volumes: Seq<TimeSeriesData>) -> int {
    ratio_spec(volumes.len() * volumes.last().value, sum_values(volumes), 1000)
}

/// Whether the latest volume is unusual: there are enough volumes, their sum
/// is positive, and the latest is more than 5 times their mean.
pub open spec fn unusual_volume_fires(volumes: Seq<TimeSeriesData>) -> bool {
    &&& volumes.len() >= UNUSUAL_VOLUME_SAMPLES
    &&& sum_values(volumes) > 0
    &&& volumes.len() * volumes.last().value > 5 * sum_values(volumes)
}

/// The text of an unusual volume.
pub open spec fn unusual_volume_description(
    exchange: Seq<char>,
    symbol: Seq<char>,
    ratio: int,
) -> Seq<char> {
    "Unusual volume detected for "@ + exchange + "/"@ + symbol + ": current volume is "@
        + decimal(ratio) + " thousandths of average"@
}

/// What the unusual-volume rule reports of `volumes`: high, and critical
/// where the latest volume is more than 10 times the mean.
pub open spec fn unusual_volume_detection(
    symbol: Seq<char>,
    exchange: Seq<char>,
    volumes: Seq<TimeSeriesData>,
    timestamp: i64,
    id: u128,
) -> Option<AnomalyRecord> {
    if unusual_volume_fires(volumes) {
        let current = volumes.last().value;
        let mean = mean_spec(volumes);
        Some(
            AnomalyRecord {
                id,
                timestamp,
                symbol,
                exchange,
                anomaly_type: AnomalyType::UnusualActivity,
                severity: if volumes.len() * current > 10 * sum_values(volumes) {
                    AnomalySeverity::Critical
                } else {
                    AnomalySeverity::High
                },
                metrics: AnomalyMetrics {
                    current_value: current,
                    expected_value: mean as i64,
                    deviation: (current - mean) as i64,
                    z_score: None,
                    percentage_change: Some(percent_from_mean_spec(volumes, current as int) as i64),
                    historical_avg: Some(mean as i64),
                    historical_std: None,
                },
                description: unusual_volume_description(exchange, symbol, volume_ratio(volumes)),
            },
        )
    } else {
        None
    }
}

/// The move of the price over the latest samples that the manipulation rule
/// looks at, as a share of the oldest of them in hundredths of a percent.
pub open spec fn manipulation_move(prices: Seq<TimeSeriesData>) -> int {
    let recent = tail(prices, MANIPULATION_PERIODS as nat);
    ratio_spec(recent.last().value - recent[0].value, recent[0].value as int, 10_000)
}

/// Whether the prices and volumes suggest manipulation: there are enough
/// prices, the price moved by more than 3% over the latest of them, and the
/// mean of the latest volumes is below half the mean of all volumes.
pub open spec fn manipulation_fires(
    prices: Seq<TimeSeriesData>,
    volumes: Seq<TimeSeriesData>,
) -> bool {
    let recent = tail(prices, MANIPULATION_PERIODS as nat);
    &&& prices.len() >= MANIPULATION_PERIODS
    &&& recent[0].value != 0
    &&& abs_spec(recent.last().value - recent[0].value) * 100 > 3 * abs_spec(recent[0].value as int)
    &&& volumes.len() * sum_values(tail(volumes, MANIPULATION_PERIODS as nat)) < 5 * sum_values(
        volumes,
    )
}

/// The text of a suspected manipulation.
pub open spec fn manipulation_description(
    exchange: Seq<char>,
    symbol: Seq<char>,
    change: int,
) -> Seq<char> {
    "Potential price manipulation for "@ + exchange + "/"@ + symbol + ": "@ + decimal(change)
        + " bp price change with low volume"@
}

/// What the manipulation rule reports of `prices` and `volumes`.
pub open spec fn manipulation_detection(
    symbol: Seq<char>,
    exchange: Seq<char>,
    prices: Seq<TimeSeriesData>,
    volumes: Seq<TimeSeriesData>,
    timestamp: i64,
    id: u128,
) -> Option<AnomalyRecord> {
    if manipulation_fires(prices, volumes) {
        let recent = tail(prices, MANIPULATION_PERIODS as nat);
        let now = recent.last().value;
        let then = recent[0].value;
        Some(
            AnomalyRecord {
                id,
                timestamp,
                symbol,
                exchange,
                anomaly_type: AnomalyType::UnusualActivity,
                severity: AnomalySeverity::High,
                metrics: AnomalyMetrics {
                    current_value: now,
                    expected_value: then,
                    deviation: (now - then) as i64,
                    z_score: None,
                    percentage_change: Some(manipulation_move(prices) as i64),
                    historical_avg: Some(mean_spec(volumes) as i64),
                    historical_std: None,
                },
                description: manipulation_description(exchange, symbol, manipulation_move(prices)),
            },
        )
    } else {
        None
    }
}

/// Everything that the analyzer reports of its histories, in the order in
/// which it looks: unusual volume, manipulation, flash crash, pump-and-dump.
pub open spec fn analysis(
    symbol: Seq<char>,
    exchange: Seq<char>,
    prices: Seq<TimeSeriesData>,
    volumes: Seq<TimeSeriesData>,
    timestamp: i64,
    id: u128,
) -> Seq<AnomalyRecord> {
    maybe(unusual_volume_detection(symbol, exchange, volumes, timestamp, id)) + maybe(
        manipulation_detection(symbol, exchange, prices, volumes, timestamp, id),
    ) + maybe(
        flash_crash_detection(
            (FlashCrashConfig { periods: 5, min_drop: 1000, max_share: 9000 }),
            symbol,
            exchange,
            prices,
            timestamp,
            id,
        ),
    ) + maybe(
        pump_dump_detection(
            (PumpDumpConfig {
                periods: 20,
                min_pump: 2000,
                min_dump: 1500,
                peak_after: 5,
                peak_before: 15,
            }),
            symbol,
            exchange,
            prices,
            timestamp,
            id,
        ),
    )
}

/// A sample at a time, with a value.
pub open spec fn sample(timestamp: i64, value: i64) -> TimeSeriesData {
    TimeSeriesData { timestamp, value }
}

/// Keeps the latest prices and volumes of one market and looks for anomalies
/// in them.
#[derive(Debug)]
pub struct MarketAnalyzer {
    symbol: String,
    exchange: String,
    price_history: TimeSeriesWindow,
    volume_history: TimeSeriesWindow,
}

impl MarketAnalyzer {
    /// The symbol that the analyzer watches.
    pub closed spec fn symbol(&self) -> Seq<char> {
        self.symbol@
    }

    /// The exchange that the analyzer watches.
    pub closed spec fn exchange(&self) -> Seq<char> {
        self.exchange@
    }

    /// The prices remembered, oldest first.
    pub closed spec fn prices(&self) -> Seq<TimeSeriesData> {
        self.price_history@
    }

    /// The volumes remembered, oldest first.
    pub closed spec fn volumes(&self) -> Seq<TimeSeriesData> {
        self.volume_history@
    }

    /// The analyzer's invariant.
    pub closed spec fn valid(&self) -> bool {
        &&& self.price_history.wf()
        &&& self.volume_history.wf()
        &&& self.price_history.capacity() == HISTORY_SIZE
        &&& self.volume_history.capacity() == HISTORY_SIZE
        &&& self.price_history@.len() == self.volume_history@.len()
    }

    /// What the invariant says, for callers that cannot see the fields: the
    /// histories are of one length, no longer than `HISTORY_SIZE`, and hold
    /// values in range.
    pub proof fn lemma_valid(&self)
        requires
            self.valid(),
        ensures
            self.prices().len() == self.volumes().len(),
            self.prices().len() <= HISTORY_SIZE,
            all_in_range(self.prices()),
            all_in_range(self.volumes()),
    {
        self.price_history.lemma_wf();
        self.volume_history.lemma_wf();
    }

    /// An analyzer with empty histories.
    pub fn new(symbol: String, exchange: String) -> (a: Self)
        ensures
            a.valid(),
            a.symbol() == symbol@,
            a.exchange() == exchange@,
            a.prices() == Seq::<TimeSeriesData>::empty(),
            a.volumes() == Seq::<TimeSeriesData>::empty(),
    {
        MarketAnalyzer {
            symbol,
            exchange,
            price_history: TimeSeriesWindow::new(HISTORY_SIZE),
            volume_history: TimeSeriesWindow::new(HISTORY_SIZE),
        }
    }

    /// Adds a price and a volume to the histories, each of which gives up its
    /// oldest entry once it holds `HISTORY_SIZE`.
    pub fn update_history(&mut self, price: i64, volume: i64, timestamp: i64)
        requires
            old(self).valid(),
            in_range(price),
            in_range(volume),
        ensures
            final(self).valid(),
            final(self).symbol() == old(self).symbol(),
            final(self).exchange() == old(self).exchange(),
            final(self).prices() == push_spec(
                old(self).prices(),
                HISTORY_SIZE as nat,
                sample(timestamp, price),
            ),
            final(self).volumes() == push_spec(
                old(self).volumes(),
                HISTORY_SIZE as nat,
                sample(timestamp, volume),
            ),
    {
        self.price_history.push(TimeSeriesData { timestamp, value: price });
        self.volume_history.push(TimeSeriesData { timestamp, value: volume });
    }

    /// Looks for an unusual volume.
    pub fn check_unusual_volume(&self, timestamp: i64, id: u128) -> (r: Option<AnomalyDetection>)
        requires
            self.valid(),
        ensures
            reports(
                r,
                unusual_volume_detection(
                    self.symbol(),
                    self.exchange(),
                    self.volumes(),
                    timestamp,
                    id,
                ),
            ),
    {
        let n = self.volume_history.len();
        if n < UNUSUAL_VOLUME_SAMPLES {
            return None;
        }
        let current = self.volume_history.get(n - 1).value;
        let total = self.volume_history.sum();
        proof {
            self.volume_history.lemma_wf();
            crate::window::lemma_sums_bounded(self.volume_history@);
            lemma_scaled_bounds(n as int, current as int);
        }
        let scaled: i128 = (n as i128) * (current as i128);
        if total > 0 && scaled > 5 * total {
            let mean = self.volume_history.mean();
            let pct = self.volume_history.percent_from_mean(current);
            let times = ratio(scaled, total, 1000);
            let mut description = String::from_str("Unusual volume detected for ");
            description.append(self.exchange.as_str());
            description.append("/");
            description.append(self.symbol.as_str());
            description.append(": current volume is ");
            push_decimal(&mut description, times);
            description.append(" thousandths of average");
            Some(
                AnomalyDetection {
                    id,
                    timestamp,
                    symbol: self.symbol.clone(),
                    exchange: self.exchange.clone(),
                    anomaly_type: AnomalyType::UnusualActivity,
                    severity: if scaled > 10 * total {
                        AnomalySeverity::Critical
                    } else {
                        AnomalySeverity::High
                    },
                    metrics: AnomalyMetrics {
                        current_value: current,
                        expected_value: mean,
                        deviation: current - mean,
                        z_score: None,
                        percentage_change: Some(pct),
                        historical_avg: Some(mean),
                        historical_std: None,
                    },
                    description,
                },
            )
        } else {
            None
        }
    }

    /// Looks for a price that moved while volume was low.
    pub fn check_price_manipulation(&self, timestamp: i64, id: u128) -> (r: Option<
        AnomalyDetection,
    >)
        requires
            self.valid(),
        ensures
            reports(
                r,
                manipulation_detection(
                    self.symbol(),
                    self.exchange(),
                    self.prices(),
                    self.volumes(),
                    timestamp,
                    id,
                ),
            ),
    {
        let n = self.price_history.len();
        if n < MANIPULATION_PERIODS {
            return None;
        }
        let now = self.price_history.get(n - 1).value;
        let then = self.price_history.get(n - MANIPULATION_PERIODS).value;
        proof {
            self.price_history.lemma_wf();
            self.volume_history.lemma_wf();
        }
        if then == 0 {
            return None;
        }
        let moved: u128 = magnitude(now as i128 - then as i128);
        let base: u128 = magnitude(then as i128);
        let recent_volume: i128 = self.volume_history.sum_of_last(MANIPULATION_PERIODS);
        let total_volume: i128 = self.volume_history.sum();
        proof {
            crate::window::lemma_sums_bounded(self.volume_history@);
            lemma_scaled_sum_bounds(n as int, recent_volume as int);
        }
        if moved * 100 > 3 * base && (n as i128) * recent_volume < 5 * total_volume {
            let change = ratio(now as i128 - then as i128, then as i128, 10_000);
            let mean_volume = self.volume_history.mean();
            let mut description = String::from_str("Potential price manipulation for ");
            description.append(self.exchange.as_str());
            description.append("/");
            description.append(self.symbol.as_str());
            description.append(": ");
            push_decimal(&mut description, change);
            description.append(" bp price change with low volume");
            Some(
                AnomalyDetection {
                    id,
                    timestamp,
                    symbol: self.symbol.clone(),
                    exchange: self.exchange.clone(),
                    anomaly_type: AnomalyType::UnusualActivity,
                    severity: AnomalySeverity::High,
                    metrics: AnomalyMetrics {
                        current_value: now,
                        expected_value: then,
                        deviation: now - then,
                        z_score: None,
                        percentage_change: Some(change),
                        historical_avg: Some(mean_volume),
                        historical_std: None,
                    },
                    description,
                },
            )
        } else {
            None
        }
    }

    /// Looks for a flash crash among the latest 5 prices.
    pub fn check_flash_crash(&self, timestamp: i64, id: u128) -> (r: Option<AnomalyDetection>)
        requires
            self.valid(),
        ensures
            reports(
                r,
                flash_crash_detection(
                    (FlashCrashConfig { periods: 5, min_drop: 1000, max_share: 9000 }),
                    self.symbol(),
                    self.exchange(),
                    self.prices(),
                    timestamp,
                    id,
                ),
            ),
    {
        let config = FlashCrashConfig::default();
        check_flash_crash(&config, &self.price_history, &self.symbol, &self.exchange, timestamp, id)
    }

    /// Looks for a pump-and-dump among the latest 20 prices.
    pub fn check_pump_dump(&self, timestamp: i64, id: u128) -> (r: Option<AnomalyDetection>)
        requires
            self.valid(),
        ensures
            reports(
                r,
                pump_dump_detection(
                    (PumpDumpConfig {
                        periods: 20,
                        min_pump: 2000,
                        min_dump: 1500,
                        peak_after: 5,
                        peak_before: 15,
                    }),
                    self.symbol(),
                    self.exchange(),
                    self.prices(),
                    timestamp,
                    id,
                ),
            ),
    {
        let config = PumpDumpConfig::default();
        check_pump_dump(&config, &self.price_history, &self.symbol, &self.exchange, timestamp, id)
    }

    /// Takes one price and volume, observed at `timestamp`, and reports every
    /// anomaly that the histories then show, each under the identifier `id`.
    /// A pair with a value out of range is passed over.
    pub fn analyze_market_data_at(&mut self, price: i64, volume: i64, timestamp: i64, id: u128) -> (r:
        Vec<AnomalyDetection>)
        requires
            old(self).valid(),
        ensures
            final(self).valid(),
            final(self).symbol() == old(self).symbol(),
            final(self).exchange() == old(self).exchange(),
            in_range(price) && in_range(volume) ==> {
                &&& final(self).prices() == push_spec(
                    old(self).prices(),
                    HISTORY_SIZE as nat,
                    sample(timestamp, price),
                )
                &&& final(self).volumes() == push_spec(
                    old(self).volumes(),
                    HISTORY_SIZE as nat,
                    sample(timestamp, volume),
                )
                &&& records(r@) == analysis(
                    final(self).symbol(),
                    final(self).exchange(),
                    final(self).prices(),
                    final(self).volumes(),
                    timestamp,
                    id,
                )
            },
            !(in_range(price) && in_range(volume)) ==> {
                &&& final(self).prices() == old(self).prices()
                &&& final(self).volumes() == old(self).volumes()
                &&& r@.len() == 0
            },
    {
        let mut anomalies: Vec<AnomalyDetection> = Vec::new();
        if !TimeSeriesWindow::accepts(price) || !TimeSeriesWindow::accepts(volume) {
            return anomalies;
        }
        self.update_history(price, volume, timestamp);
        let ghost a = unusual_volume_detection(
            self.symbol(),
            self.exchange(),
            self.volumes(),
            timestamp,
            id,
        );
        if let Some(found) = self.check_unusual_volume(timestamp, id) {
            anomalies.push(found);
        }
        if let Some(found) = self.check_price_manipulation(timestamp, id) {
            anomalies.push(found);
        }
        if let Some(found) = self.check_flash_crash(timestamp, id) {
            anomalies.push(found);
        }
        if let Some(found) = self.check_pump_dump(timestamp, id) {
            anomalies.push(found);
        }
        anomalies
    }

    /// Takes one price and volume, observed now, and reports every anomaly
    /// that the histories then show, each under a new random identifier.
    pub fn analyze_market_data(&mut self, price: i64, volume: i64) -> (r: Vec<AnomalyDetection>)
        requires
            old(self).valid(),
        ensures
            final(self).valid(),
            final(self).symbol() == old(self).symbol(),
            final(self).exchange() == old(self).exchange(),
            in_range(price) && in_range(volume) ==> exists|timestamp: i64|
                {
                    &&& final(self).prices() == push_spec(
                        old(self).prices(),
                        HISTORY_SIZE as nat,
                        sample(timestamp, price),
                    )
                    &&& final(self).volumes() == push_spec(
                        old(self).volumes(),
                        HISTORY_SIZE as nat,
                        sample(timestamp, volume),
                    )
                    &&& records_under_some_ids(
                        r@,
                        #[trigger] analysis(
                            final(self).symbol(),
                            final(self).exchange(),
                            final(self).prices(),
                            final(self).volumes(),
                            timestamp,
                            0,
                        ),
                    )
                },
            !(in_range(price) && in_range(volume)) ==> {
                &&& final(self).prices() == old(self).prices()
                &&& final(self).volumes() == old(self).volumes()
                &&& r@.len() == 0
            },
    {
        let timestamp = now_millis();
        let found = self.analyze_market_data_at(price, volume, timestamp, 0);
        restamp(found)
    }
}

proof fn lemma_scaled_bounds(n: int, v: int)
    by (nonlinear_arith)
    requires
        0 <= n <= MAX_WINDOW,
        -MAX_VALUE <= v <= MAX_VALUE,
    ensures
        -(MAX_WINDOW * MAX_VALUE) <= n * v <= MAX_WINDOW * MAX_VALUE,
{
}

proof fn lemma_scaled_sum_bounds(n: int, t: int)
    by (nonlinear_arith)
    requires
        0 <= n <= MAX_WINDOW,
        -(MAX_WINDOW * MAX_VALUE) <= t <= MAX_WINDOW * MAX_VALUE,
    ensures
        -(MAX_WINDOW * (MAX_WINDOW * MAX_VALUE)) <= n * t <= MAX_WINDOW * (MAX_WINDOW * MAX_VALUE),
{
}

} // verus!
