//! The volume and price detectors, and what they have in common.

use crate::anomaly::{
    reports, reports_under_some_id, AnomalyDetection, AnomalyMetrics, AnomalyRecord,
    AnomalySeverity, PriceAnomalyConfig, VolumeAnomalyConfig,
};
use crate::arith::{abs_spec, ratio, ratio_spec, RATIO_CAP};
use crate::event::AnomalyType;
use crate::outside::fresh_id;
use crate::text::{decimal, push_decimal};
use crate::window::{
    all_in_range, in_range, lemma_push_grows, mean_spec, percent_from_mean_spec, push_spec, std_dev_spec,
    z_score_spec, TimeSeriesData, TimeSeriesWindow, MAX_WINDOW,
};
use vstd::prelude::*;
use vstd::string::*;

verus! {

/// The size of a ratio that the library computed.
pub fn ratio_size(x: i64) -> (r: i64)
    requires
        -RATIO_CAP <= x <= RATIO_CAP,
    ensures
        r == abs_spec(x as int),
{
    if x < 0 {
        -x
    } else {
        x
    }
}

/// What every detector offers: it takes one sample at a time, and may report
/// one anomaly for it.
pub trait AnomalyDetector {
    /// The detector's invariant.
    spec fn wf(&self) -> bool;

    /// The samples that the detector holds, oldest first.
    spec fn samples(&self) -> Seq<TimeSeriesData>;

    /// The number of samples below which the detector reports nothing.
    spec fn min_samples(&self) -> nat;

    /// Takes one sample.  Nothing is reported while the detector holds fewer
    /// than `min_samples` samples.
    fn detect(&mut self, data: &TimeSeriesData) -> (r: Option<AnomalyDetection>)
        requires
            old(self).wf(),
        ensures
            final(self).wf(),
            final(self).min_samples() == old(self).min_samples(),
            final(self).samples().len() < final(self).min_samples() ==> r is None,
    ;

    /// Forgets every sample.
    fn reset(&mut self)
        requires
            old(self).wf(),
        ensures
            final(self).wf(),
            final(self).min_samples() == old(self).min_samples(),
            final(self).samples() == Seq::<TimeSeriesData>::empty(),
    ;
}

/// The severity of a volume anomaly, by the size of its z-score: 5 or more is
/// critical, 4 or more high, 3 or more medium.
pub open spec fn volume_severity(z: int) -> AnomalySeverity {
    let a = abs_spec(z);
    if a >= 5000 {
        AnomalySeverity::Critical
    } else if a >= 4000 {
        AnomalySeverity::High
    } else if a >= 3000 {
        AnomalySeverity::Medium
    } else {
        AnomalySeverity::Low
    }
}

/// Whether a volume `v` is reported against the window `w`, which already
/// holds it: the window holds enough samples, and both the z-score and the
/// distance from the mean reach their thresholds.
pub open spec fn volume_fires(config: VolumeAnomalyConfig, w: Seq<TimeSeriesData>, v: int) -> bool {
    &&& w.len() >= config.min_samples
    &&& abs_spec(z_score_spec(w, v)) >= config.z_score_threshold
    &&& abs_spec(percent_from_mean_spec(w, v)) >= config.min_percentage_change
}

/// The text of a volume anomaly.
pub open spec fn volume_description(
    exchange: Seq<char>,
    symbol: Seq<char>,
    v: int,
    pct: int,
    mean: int,
    z: int,
) -> Seq<char> {
    "Volume anomaly detected for "@ + exchange + "/"@ + symbol + ": current volume "@ + decimal(v)
        + " is "@ + decimal(abs_spec(pct)) + (if pct > 0 {
        " bp above average ("@
    } else {
        " bp below average ("@
    }) + decimal(mean) + "), z-score in thousandths: "@ + decimal(z)
}

/// The anomaly that is reported for a volume `data` against the window `w`,
/// which already holds it.
pub open spec fn volume_record(
    symbol: Seq<char>,
    exchange: Seq<char>,
    w: Seq<TimeSeriesData>,
    data: TimeSeriesData,
    id: u128,
) -> AnomalyRecord {
    let v = data.value as int;
    let mean = mean_spec(w);
    let z = z_score_spec(w, v);
    let pct = percent_from_mean_spec(w, v);
    AnomalyRecord {
        id,
        timestamp: data.timestamp,
        symbol,
        exchange,
        anomaly_type: AnomalyType::VolumeSpike,
        severity: volume_severity(z),
        metrics: AnomalyMetrics {
            current_value: data.value,
            expected_value: mean as i64,
            deviation: (v - mean) as i64,
            z_score: Some(z as i64),
            percentage_change: Some(pct as i64),
            historical_avg: Some(mean as i64),
            historical_std: Some(std_dev_spec(w) as i64),
        },
        description: volume_description(exchange, symbol, v, pct, mean, z),
    }
}

/// What the volume detector reports for `data` when it holds `before`: the
/// sample joins the window first and is judged against it; a value out of
/// range is passed over.
pub open spec fn volume_detection(
    config: VolumeAnomalyConfig,
    symbol: Seq<char>,
    exchange: Seq<char>,
    before: Seq<TimeSeriesData>,
    data: TimeSeriesData,
    id: u128,
) -> Option<AnomalyRecord> {
    let w = push_spec(before, config.window_size as nat, data);
    if in_range(data.value) && volume_fires(config, w, data.value as int) {
        Some(volume_record(symbol, exchange, w, data, id))
    } else {
        None
    }
}

/// Reports volumes that lie far from the recent mean.
#[derive(Debug)]
pub struct VolumeAnomalyDetector {
    config: VolumeAnomalyConfig,
    symbol: String,
    exchange: String,
    window: TimeSeriesWindow,
}

impl VolumeAnomalyDetector {
    /// The configuration that the detector was made with.
    pub closed spec fn config(&self) -> VolumeAnomalyConfig {
        self.config
    }

    /// The symbol that the detector watches.
    pub closed spec fn symbol(&self) -> Seq<char> {
        self.symbol@
    }

    /// The exchange that the detector watches.
    pub closed spec fn exchange(&self) -> Seq<char> {
        self.exchange@
    }

    /// The samples in the detector's window, oldest first.
    pub closed spec fn window(&self) -> Seq<TimeSeriesData> {
        self.window@
    }

    /// The detector's invariant.
    pub closed spec fn valid(&self) -> bool {
        &&& self.window.wf()
        &&& self.window.capacity() == self.config.window_size
    }

    /// What the invariant says, for callers that cannot see the fields: the
    /// window holds no more samples than its configured size, all in range.
    pub proof fn lemma_valid(&self)
        requires
            self.valid(),
        ensures
            1 <= self.config().window_size <= MAX_WINDOW,
            self.window().len() <= self.config().window_size,
            all_in_range(self.window()),
    {
        self.window.lemma_wf();
    }

    /// A detector with an empty window.
    pub fn new(config: VolumeAnomalyConfig, symbol: String, exchange: String) -> (d: Self)
        requires
            1 <= config.window_size <= MAX_WINDOW,
        ensures
            d.valid(),
            d.config() == config,
            d.symbol() == symbol@,
            d.exchange() == exchange@,
            d.window() == Seq::<TimeSeriesData>::empty(),
    {
        VolumeAnomalyDetector {
            window: TimeSeriesWindow::new(config.window_size),
            config,
            symbol,
            exchange,
        }
    }

    fn describe(&self, v: i64, pct: i64, mean: i64, z: i64) -> (s: String)
        requires
            -RATIO_CAP <= pct <= RATIO_CAP,
        ensures
            s@ == volume_description(
                self.exchange@,
                self.symbol@,
                v as int,
                pct as int,
                mean as int,
                z as int,
            ),
    {
        let mut s = String::from_str("Volume anomaly detected for ");
        s.append(self.exchange.as_str());
        s.append("/");
        s.append(self.symbol.as_str());
        s.append(": current volume ");
        push_decimal(&mut s, v);
        s.append(" is ");
        push_decimal(&mut s, ratio_size(pct));
        if pct > 0 {
            s.append(" bp above average (");
        } else {
            s.append(" bp below average (");
        }
        push_decimal(&mut s, mean);
        s.append("), z-score in thousandths: ");
        push_decimal(&mut s, z);
        s
    }

    /// Takes one volume and reports it, under the identifier `id`, if it is
    /// anomalous.
    pub fn detect_with_id(&mut self, data: &TimeSeriesData, id: u128) -> (r: Option<
        AnomalyDetection,
    >)
        requires
            old(self).valid(),
        ensures
            final(self).valid(),
            final(self).config() == old(self).config(),
            final(self).symbol() == old(self).symbol(),
            final(self).exchange() == old(self).exchange(),
            final(self).window() == push_spec(
                old(self).window(),
                old(self).config().window_size as nat,
                *data,
            ),
            reports(
                r,
                volume_detection(
                    old(self).config(),
                    old(self).symbol(),
                    old(self).exchange(),
                    old(self).window(),
                    *data,
                    id,
                ),
            ),
    {
        if !TimeSeriesWindow::accepts(data.value) {
            return None;
        }
        self.window.push(*data);
        if self.window.len() < self.config.min_samples {
            return None;
        }
        let mean = self.window.mean();
        let std_dev = self.window.std_dev();
        let z = self.window.z_score(data.value);
        let pct = self.window.percent_from_mean(data.value);
        if ratio_size(z) >= self.config.z_score_threshold && ratio_size(pct)
            >= self.config.min_percentage_change {
            let a = ratio_size(z);
            let severity = if a >= 5000 {
                AnomalySeverity::Critical
            } else if a >= 4000 {
                AnomalySeverity::High
            } else if a >= 3000 {
                AnomalySeverity::Medium
            } else {
                AnomalySeverity::Low
            };
            let description = self.describe(data.value, pct, mean, z);
            Some(
                AnomalyDetection {
                    id,
                    timestamp: data.timestamp,
                    symbol: self.symbol.clone(),
                    exchange: self.exchange.clone(),
                    anomaly_type: AnomalyType::VolumeSpike,
                    severity,
                    metrics: AnomalyMetrics {
                        current_value: data.value,
                        expected_value: mean,
                        deviation: data.value - mean,
                        z_score: Some(z),
                        percentage_change: Some(pct),
                        historical_avg: Some(mean),
                        historical_std: Some(std_dev),
                    },
                    description,
                },
            )
        } else {
            None
        }
    }
}

impl AnomalyDetector for VolumeAnomalyDetector {
    open spec fn wf(&self) -> bool {
        self.valid()
    }

    open spec fn samples(&self) -> Seq<TimeSeriesData> {
        self.window()
    }

    open spec fn min_samples(&self) -> nat {
        self.config().min_samples as nat
    }

    /// Takes one volume and reports it, under a new random identifier, if it
    /// is anomalous.
    fn detect(&mut self, data: &TimeSeriesData) -> (r: Option<AnomalyDetection>)
        ensures
            final(self).config() == old(self).config(),
            final(self).symbol() == old(self).symbol(),
            final(self).exchange() == old(self).exchange(),
            final(self).window() == push_spec(
                old(self).window(),
                old(self).config().window_size as nat,
                *data,
            ),
            reports_under_some_id(
                r,
                volume_detection(
                    old(self).config(),
                    old(self).symbol(),
                    old(self).exchange(),
                    old(self).window(),
                    *data,
                    0,
                ),
            ),
    {
        match self.detect_with_id(data, 0) {
            Some(found) => Some(found.with_id(fresh_id())),
            None => None,
        }
    }

    fn reset(&mut self)
        ensures
            final(self).config() == old(self).config(),
            final(self).symbol() == old(self).symbol(),
            final(self).exchange() == old(self).exchange(),
    {
        proof {
            self.window.lemma_wf();
        }
        self.window = TimeSeriesWindow::new(self.config.window_size);
    }
}

/// The move from the price `last` to the price `v`, as a share of `last` in
/// hundredths of a percent; 0 where there is no price before, or it is 0.
pub open spec fn price_move(last: Option<i64>, v: int) -> int {
    match last {
        Some(l) => ratio_spec(v - l, l as int, 10_000),
        None => 0,
    }
}

/// The severity of a price anomaly, by the sizes of its move and its z-score:
/// 10% or z 5 is critical, 7% or z 4 high, 5% or z 3 medium.
pub open spec fn price_severity(pct: int, z: int) -> AnomalySeverity {
    let p = abs_spec(pct);
    let a = abs_spec(z);
    if p >= 1000 || a >= 5000 {
        AnomalySeverity::Critical
    } else if p >= 700 || a >= 4000 {
        AnomalySeverity::High
    } else if p >= 500 || a >= 3000 {
        AnomalySeverity::Medium
    } else {
        AnomalySeverity::Low
    }
}

/// Whether a price `data` that follows `last` is reported by a detector that
/// held the prices `w` before it: with it the window holds enough samples,
/// and its move from the price before, or its z-score against the prices
/// before, reaches its threshold.
pub open spec fn price_fires(
    config: PriceAnomalyConfig,
    w: Seq<TimeSeriesData>,
    last: Option<i64>,
    data: TimeSeriesData,
) -> bool {
    &&& push_spec(w, config.window_size as nat, data).len() >= config.min_samples
    &&& (abs_spec(price_move(last, data.value as int)) >= config.percentage_threshold || abs_spec(
        z_score_spec(w, data.value as int),
    ) >= config.z_score_threshold)
}

/// The text of a price anomaly.
pub open spec fn price_description(
    exchange: Seq<char>,
    symbol: Seq<char>,
    pct: int,
    last: int,
    v: int,
    z: int,
) -> Seq<char> {
    "Price anomaly detected for "@ + exchange + "/"@ + symbol + ": price moved "@ + decimal(pct)
        + " bp from "@ + decimal(last) + " to "@ + decimal(v) + ", z-score in thousandths: "@
        + decimal(z)
}

/// The price before, or 0 where there is none.
pub open spec fn last_or_zero(last: Option<i64>) -> int {
    match last {
        Some(l) => l as int,
        None => 0,
    }
}

/// The anomaly that is reported for a price `data` that follows `last`,
/// against the prices `w` seen before it.
pub open spec fn price_record(
    symbol: Seq<char>,
    exchange: Seq<char>,
    w: Seq<TimeSeriesData>,
    last: Option<i64>,
    data: TimeSeriesData,
    id: u128,
) -> AnomalyRecord {
    let v = data.value as int;
    let mean = mean_spec(w);
    let z = z_score_spec(w, v);
    let pct = price_move(last, v);
    AnomalyRecord {
        id,
        timestamp: data.timestamp,
        symbol,
        exchange,
        anomaly_type: AnomalyType::PriceSpike,
        severity: price_severity(pct, z),
        metrics: AnomalyMetrics {
            current_value: data.value,
            expected_value: mean as i64,
            deviation: (v - mean) as i64,
            z_score: Some(z as i64),
            percentage_change: Some(pct as i64),
            historical_avg: Some(mean as i64),
            historical_std: Some(std_dev_spec(w) as i64),
        },
        description: price_description(exchange, symbol, pct, last_or_zero(last), v, z),
    }
}

/// What the price detector reports for `data` when it holds `before` and the
/// price before was `last`: the price counts toward the samples that the
/// detector waits for, its mean, deviation and z-score are taken over the
/// prices seen before it, and it joins the window after; a value out of
/// range is passed over.
pub open spec fn price_detection(
    config: PriceAnomalyConfig,
    symbol: Seq<char>,
    exchange: Seq<char>,
    before: Seq<TimeSeriesData>,
    last: Option<i64>,
    data: TimeSeriesData,
    id: u128,
) -> Option<AnomalyRecord> {
    if in_range(data.value) && price_fires(config, before, last, data) {
        Some(price_record(symbol, exchange, before, last, data, id))
    } else {
        None
    }
}

/// The price that the price detector remembers after `data`.
pub open spec fn price_after(last: Option<i64>, data: TimeSeriesData) -> Option<i64> {
    if in_range(data.value) {
        Some(data.value)
    } else {
        last
    }
}

/// Reports prices that jump from the price before, or lie far from the recent
/// mean.
#[derive(Debug)]
pub struct PriceAnomalyDetector {
    config: PriceAnomalyConfig,
    symbol: String,
    exchange: String,
    window: TimeSeriesWindow,
    last_price: Option<i64>,
}

impl PriceAnomalyDetector {
    /// The configuration that the detector was made with.
    pub closed spec fn config(&self) -> PriceAnomalyConfig {
        self.config
    }

    /// The symbol that the detector watches.
    pub closed spec fn symbol(&self) -> Seq<char> {
        self.symbol@
    }

    /// The exchange that the detector watches.
    pub closed spec fn exchange(&self) -> Seq<char> {
        self.exchange@
    }

    /// The samples in the detector's window, oldest first.
    pub closed spec fn window(&self) -> Seq<TimeSeriesData> {
        self.window@
    }

    /// The last price that the detector took.
    pub closed spec fn last_price(&self) -> Option<i64> {
        self.last_price
    }

    /// The detector's invariant.
    pub closed spec fn valid(&self) -> bool {
        &&& self.window.wf()
        &&& self.window.capacity() == self.config.window_size
        &&& (self.last_price matches Some(l) ==> in_range(l))
    }

    /// What the invariant says, for callers that cannot see the fields: the
    /// window holds no more samples than its configured size, all in range,
    /// and so is the last price.
    pub proof fn lemma_valid(&self)
        requires
            self.valid(),
        ensures
            1 <= self.config().window_size <= MAX_WINDOW,
            self.window().len() <= self.config().window_size,
            all_in_range(self.window()),
            self.last_price() matches Some(l) ==> in_range(l),
    {
        self.window.lemma_wf();
    }

    /// A detector with an empty window and no price before.
    pub fn new(config: PriceAnomalyConfig, symbol: String, exchange: String) -> (d: Self)
        requires
            1 <= config.window_size <= MAX_WINDOW,
        ensures
            d.valid(),
            d.config() == config,
            d.symbol() == symbol@,
            d.exchange() == exchange@,
            d.window() == Seq::<TimeSeriesData>::empty(),
            d.last_price() is None,
    {
        PriceAnomalyDetector {
            window: TimeSeriesWindow::new(config.window_size),
            config,
            symbol,
            exchange,
            last_price: None,
        }
    }

    fn describe(&self, pct: i64, last: i64, v: i64, z: i64) -> (s: String)
        ensures
            s@ == price_description(
                self.exchange@,
                self.symbol@,
                pct as int,
                last as int,
                v as int,
                z as int,
            ),
    {
        let mut s = String::from_str("Price anomaly detected for ");
        s.append(self.exchange.as_str());
        s.append("/");
        s.append(self.symbol.as_str());
        s.append(": price moved ");
        push_decimal(&mut s, pct);
        s.append(" bp from ");
        push_decimal(&mut s, last);
        s.append(" to ");
        push_decimal(&mut s, v);
        s.append(", z-score in thousandths: ");
        push_decimal(&mut s, z);
        s
    }

    /// Takes one price and reports it, under the identifier `id`, if it is
    /// anomalous.
    pub fn detect_with_id(&mut self, data: &TimeSeriesData, id: u128) -> (r: Option<
        AnomalyDetection,
    >)
        requires
            old(self).valid(),
        ensures
            final(self).valid(),
            final(self).config() == old(self).config(),
            final(self).symbol() == old(self).symbol(),
            final(self).exchange() == old(self).exchange(),
            final(self).window() == push_spec(
                old(self).window(),
                old(self).config().window_size as nat,
                *data,
            ),
            final(self).last_price() == price_after(old(self).last_price(), *data),
            reports(
                r,
                price_detection(
                    old(self).config(),
                    old(self).symbol(),
                    old(self).exchange(),
                    old(self).window(),
                    old(self).last_price(),
                    *data,
                    id,
                ),
            ),
    {
        let price = data.value;
        if !TimeSeriesWindow::accepts(price) {
            return None;
        }
        let last = self.last_price;
        let mean = self.window.mean();
        let std_dev = self.window.std_dev();
        let z = self.window.z_score(price);
        let pct = match last {
            Some(l) => ratio(price as i128 - l as i128, l as i128, 10_000),
            None => 0,
        };
        self.window.push(*data);
        self.last_price = Some(price);
        if self.window.len() < self.config.min_samples {
            return None;
        }
        let p = ratio_size(pct);
        let a = ratio_size(z);
        if p >= self.config.percentage_threshold || a >= self.config.z_score_threshold {
            let severity = if p >= 1000 || a >= 5000 {
                AnomalySeverity::Critical
            } else if p >= 700 || a >= 4000 {
                AnomalySeverity::High
            } else if p >= 500 || a >= 3000 {
                AnomalySeverity::Medium
            } else {
                AnomalySeverity::Low
            };
            let from = match last {
                Some(l) => l,
                None => 0,
            };
            let description = self.describe(pct, from, price, z);
            Some(
                AnomalyDetection {
                    id,
                    timestamp: data.timestamp,
                    symbol: self.symbol.clone(),
                    exchange: self.exchange.clone(),
                    anomaly_type: AnomalyType::PriceSpike,
                    severity,
                    metrics: AnomalyMetrics {
                        current_value: price,
                        expected_value: mean,
                        deviation: price - mean,
                        z_score: Some(z),
                        percentage_change: Some(pct),
                        historical_avg: Some(mean),
                        historical_std: Some(std_dev),
                    },
                    description,
                },
            )
        } else {
            None
        }
    }
}

impl AnomalyDetector for PriceAnomalyDetector {
    open spec fn wf(&self) -> bool {
        self.valid()
    }

    open spec fn samples(&self) -> Seq<TimeSeriesData> {
        self.window()
    }

    open spec fn min_samples(&self) -> nat {
        self.config().min_samples as nat
    }

    /// Takes one price and reports it, under a new random identifier, if it
    /// is anomalous.
    fn detect(&mut self, data: &TimeSeriesData) -> (r: Option<AnomalyDetection>)
        ensures
            final(self).config() == old(self).config(),
            final(self).symbol() == old(self).symbol(),
            final(self).exchange() == old(self).exchange(),
            final(self).window() == push_spec(
                old(self).window(),
                old(self).config().window_size as nat,
                *data,
            ),
            final(self).last_price() == price_after(old(self).last_price(), *data),
            reports_under_some_id(
                r,
                price_detection(
                    old(self).config(),
                    old(self).symbol(),
                    old(self).exchange(),
                    old(self).window(),
                    old(self).last_price(),
                    *data,
                    0,
                ),
            ),
    {
        proof {
            self.window.lemma_wf();
        }
        match self.detect_with_id(data, 0) {
            Some(found) => Some(found.with_id(fresh_id())),
            None => None,
        }
    }

    fn reset(&mut self)
        ensures
            final(self).config() == old(self).config(),
            final(self).symbol() == old(self).symbol(),
            final(self).exchange() == old(self).exchange(),
            final(self).last_price() is None,
    {
        proof {
            self.window.lemma_wf();
        }
        self.window = TimeSeriesWindow::new(self.config.window_size);
        self.last_price = None;
    }
}

} // verus!
