//! The manager that keeps one list of detectors for every market.

use crate::anomaly::{
    records, records_under_some_ids, restamp, AnomalyDetection, AnomalyRecord, PriceAnomalyConfig,
    VolumeAnomalyConfig,
};
use crate::assoc::{
    assoc_map, has_key, lemma_assoc_get, lemma_assoc_keys, lemma_assoc_len,
    lemma_assoc_map_values, lemma_assoc_push, lemma_assoc_update, unique_keys,
};
use crate::composite::{
    composite_cleared, composite_reports, composite_step, lemma_report_count,
    CompositeAnomalyDetector, Detector, DetectorState,
};
use crate::detector::{PriceAnomalyDetector, VolumeAnomalyDetector};
use crate::window::{TimeSeriesData, MAX_WINDOW};
use vstd::prelude::*;
use vstd::string::*;

verus! {

/// The time that must lie between two samples of one market for which the
/// manager hands out reports, in milliseconds.
pub const REPORT_SPACING_MS: i64 = 2000;

/// A market: the exchange, and the symbol traded on it.
pub type Market = (Seq<char>, Seq<char>);

/// The market of a symbol on an exchange.
pub open spec fn market_key(exchange: Seq<char>, symbol: Seq<char>) -> Market {
    (exchange, symbol)
}

/// What the manager holds for one market: what its detectors hold, and the
/// time of the last sample for which reports were handed out.
pub struct MarketState {
    pub detectors: Seq<DetectorState>,
    pub last_report: Option<i64>,
}

/// The detectors that the manager makes for a market that it has not seen:
/// a volume detector and a price detector, with empty windows.
pub open spec fn fresh_detectors(
    volume_config: VolumeAnomalyConfig,
    price_config: PriceAnomalyConfig,
    symbol: Seq<char>,
    exchange: Seq<char>,
) -> Seq<DetectorState> {
    seq![
        DetectorState::Volume { config: volume_config, symbol, exchange, window: Seq::empty() },
        DetectorState::Price {
            config: price_config,
            symbol,
            exchange,
            window: Seq::empty(),
            last_price: None,
        },
    ]
}

/// Whether the reports for a sample at `now` are held back: reports were
/// handed out for a sample less than two seconds before it.
pub open spec fn held_back(last_report: Option<i64>, now: i64) -> bool {
    match last_report {
        Some(t) => now - t < REPORT_SPACING_MS,
        None => false,
    }
}

/// What the manager hands out for a sample of a market: nothing where the
/// reports are held back, else what the market's detectors report, in their
/// order.
pub open spec fn market_reports(s: MarketState, data: TimeSeriesData, id: u128) -> Seq<
    AnomalyRecord,
> {
    if held_back(s.last_report, data.timestamp) {
        Seq::empty()
    } else {
        composite_reports(s.detectors, data, id)
    }
}

/// What the manager holds for a market after a sample: the detectors took
/// it, held back or not, and where reports were handed out its time is
/// remembered.
pub open spec fn market_step(s: MarketState, data: TimeSeriesData) -> MarketState {
    MarketState {
        detectors: composite_step(s.detectors, data),
        last_report: if market_reports(s, data, 0).len() > 0 {
            Some(data.timestamp)
        } else {
            s.last_report
        },
    }
}

/// What the manager holds for a market after a reset: the detectors are
/// empty, the time of the last reports stays.
pub open spec fn market_cleared(s: MarketState) -> MarketState {
    MarketState { detectors: composite_cleared(s.detectors), last_report: s.last_report }
}

/// What the manager holds for a market after each of the samples, in turn.
pub open spec fn market_run(s: MarketState, samples: Seq<TimeSeriesData>) -> MarketState
    decreases samples.len(),
{
    if samples.len() == 0 {
        s
    } else {
        market_step(market_run(s, samples.drop_last()), samples.last())
    }
}

/// Whether the manager hands out reports for the last of the samples, when
/// it takes them in turn.
pub open spec fn reported_at_last(s: MarketState, samples: Seq<TimeSeriesData>) -> bool {
    samples.len() > 0 && market_reports(
        market_run(s, samples.drop_last()),
        samples.last(),
        0,
    ).len() > 0
}

/// Reports for one market are spaced.  Where the manager hands out reports
/// for two samples of a market, the later of the two is at least two seconds
/// after the earlier.
pub proof fn lemma_reports_spaced(s: MarketState, samples: Seq<TimeSeriesData>, i: int, j: int)
    requires
        0 <= i < j < samples.len(),
        reported_at_last(s, samples.subrange(0, i + 1)),
        reported_at_last(s, samples.subrange(0, j + 1)),
    ensures
        samples[j].timestamp - samples[i].timestamp >= REPORT_SPACING_MS,
{
    let earlier = samples.subrange(0, j);
    assert(earlier.subrange(0, i + 1) =~= samples.subrange(0, i + 1));
    assert(samples.subrange(0, j + 1).drop_last() =~= earlier);
    lemma_last_report(s, earlier, i);
}

/// After reports were handed out for the sample at place `i`, the time that
/// the manager remembers is at least that sample's.
pub proof fn lemma_last_report(s: MarketState, samples: Seq<TimeSeriesData>, i: int)
    requires
        0 <= i < samples.len(),
        reported_at_last(s, samples.subrange(0, i + 1)),
    ensures
        market_run(s, samples).last_report matches Some(t) && t >= samples[i].timestamp,
    decreases samples.len(),
{
    let before = samples.drop_last();
    if i == samples.len() - 1 {
        assert(samples.subrange(0, i + 1) =~= samples);
    } else {
        assert(before.subrange(0, i + 1) =~= samples.subrange(0, i + 1));
        lemma_last_report(s, before, i);
    }
}

/// The detectors of one market.
#[derive(Debug)]
pub struct ManagedDetector {
    exchange: String,
    symbol: String,
    detector: CompositeAnomalyDetector,
    last_report: Option<i64>,
}

impl View for ManagedDetector {
    type V = MarketState;

    closed spec fn view(&self) -> MarketState {
        MarketState { detectors: self.detector@, last_report: self.last_report }
    }
}

/// Keeps the detectors of every market seen so far, makes those of a market
/// when its first sample comes, and spaces the reports of each market.
#[derive(Debug)]
pub struct AnomalyDetectorManager {
    entries: Vec<ManagedDetector>,
    volume_config: VolumeAnomalyConfig,
    price_config: PriceAnomalyConfig,
}

impl View for AnomalyDetectorManager {
    type V = Map<Market, MarketState>;

    closed spec fn view(&self) -> Map<Market, MarketState> {
        assoc_map(self.pairs())
    }
}

impl AnomalyDetectorManager {
    /// The markets and what is held for each, in the order in which the
    /// markets first came.
    pub closed spec fn pairs(&self) -> Seq<(Market, MarketState)> {
        Seq::new(
            self.entries@.len(),
            |i: int|
                (
                    market_key(self.entries@[i].exchange@, self.entries@[i].symbol@),
                    self.entries@[i]@,
                ),
        )
    }

    /// The configuration of the volume detectors that the manager makes.
    pub closed spec fn volume_config(&self) -> VolumeAnomalyConfig {
        self.volume_config
    }

    /// The configuration of the price detectors that the manager makes.
    pub closed spec fn price_config(&self) -> PriceAnomalyConfig {
        self.price_config
    }

    /// The manager's invariant: no market twice, every detector valid, and
    /// configurations from which detectors can be made.
    pub closed spec fn valid(&self) -> bool {
        &&& unique_keys(self.pairs())
        &&& forall|i: int|
            0 <= i < self.entries@.len() ==> (#[trigger] self.entries@[i]).detector.valid()
        &&& 1 <= self.volume_config.window_size <= MAX_WINDOW
        &&& 1 <= self.price_config.window_size <= MAX_WINDOW
    }

    /// What the manager holds for a market: what it keeps for it, or new
    /// detectors and no reports behind them where it keeps nothing.
    pub open spec fn market_of(&self, symbol: Seq<char>, exchange: Seq<char>) -> MarketState {
        let key = market_key(exchange, symbol);
        if self@.contains_key(key) {
            self@[key]
        } else {
            MarketState {
                detectors: fresh_detectors(
                    self.volume_config(),
                    self.price_config(),
                    symbol,
                    exchange,
                ),
                last_report: None,
            }
        }
    }

    /// A manager that has seen no market.
    pub fn new(volume_config: VolumeAnomalyConfig, price_config: PriceAnomalyConfig) -> (m: Self)
        requires
            1 <= volume_config.window_size <= MAX_WINDOW,
            1 <= price_config.window_size <= MAX_WINDOW,
        ensures
            m.valid(),
            m@ == Map::<Market, MarketState>::empty(),
            m.volume_config() == volume_config,
            m.price_config() == price_config,
    {
        AnomalyDetectorManager { entries: Vec::new(), volume_config, price_config }
    }

    fn find(&self, symbol: &String, exchange: &String) -> (r: Option<usize>)
        ensures
            match r {
                Some(i) => i < self.entries@.len() && self.pairs()[i as int].0 == market_key(
                    exchange@,
                    symbol@,
                ),
                None => !has_key(self.pairs(), market_key(exchange@, symbol@)),
            },
    {
        let mut i: usize = 0;
        while i < self.entries.len()
            invariant
                i <= self.entries@.len(),
                forall|j: int|
                    0 <= j < i ==> (#[trigger] self.pairs()[j]).0 != market_key(
                        exchange@,
                        symbol@,
                    ),
            decreases self.entries@.len() - i,
        {
            if self.entries[i].exchange == *exchange && self.entries[i].symbol == *symbol {
                return Some(i);
            }
            i = i + 1;
        }
        None
    }

    /// The place of a market's detectors, which are made first where the
    /// manager has none for it.
    pub fn get_or_create_detector(&mut self, symbol: &str, exchange: &str) -> (slot: usize)
        requires
            old(self).valid(),
        ensures
            final(self).valid(),
            final(self).volume_config() == old(self).volume_config(),
            final(self).price_config() == old(self).price_config(),
            final(self)@ == old(self)@.insert(
                market_key(exchange@, symbol@),
                old(self).market_of(symbol@, exchange@),
            ),
            slot < final(self).pairs().len(),
            final(self).pairs()[slot as int].0 == market_key(exchange@, symbol@),
    {
        let owned_symbol = String::from_str(symbol);
        let owned_exchange = String::from_str(exchange);
        let ghost key = market_key(exchange@, symbol@);
        proof {
            lemma_assoc_keys(self.pairs(), key);
        }
        match self.find(&owned_symbol, &owned_exchange) {
            Some(i) => {
                proof {
                    lemma_assoc_get(self.pairs(), i as int);
                    assert(self@ =~= self@.insert(key, self@[key]));
                }
                i
            },
            None => {
                let mut composite = CompositeAnomalyDetector::new();
                composite.add_detector(
                    Detector::Volume(
                        VolumeAnomalyDetector::new(
                            self.volume_config,
                            String::from_str(symbol),
                            String::from_str(exchange),
                        ),
                    ),
                );
                composite.add_detector(
                    Detector::Price(
                        PriceAnomalyDetector::new(
                            self.price_config,
                            String::from_str(symbol),
                            String::from_str(exchange),
                        ),
                    ),
                );
                let ghost fresh = MarketState {
                    detectors: fresh_detectors(
                        self.volume_config,
                        self.price_config,
                        symbol@,
                        exchange@,
                    ),
                    last_report: None,
                };
                assert(composite@ =~= fresh.detectors);
                let ghost before = self.pairs();
                let slot = self.entries.len();
                self.entries.push(
                    ManagedDetector {
                        exchange: owned_exchange,
                        symbol: owned_symbol,
                        detector: composite,
                        last_report: None,
                    },
                );
                proof {
                    assert(self.pairs() =~= before.push((key, fresh)));
                    lemma_assoc_push(before, key, fresh);
                }
                slot
            },
        }
    }

    /// Hands one sample of a market to its detectors, which are made first
    /// where the manager has none for it.  What they report is handed out,
    /// each report under the identifier `id`, unless reports for this market
    /// were handed out for a sample less than two seconds before: then the
    /// detectors still take the sample, and nothing is handed out.
    pub fn process_data_with_id(
        &mut self,
        symbol: &str,
        exchange: &str,
        data: &TimeSeriesData,
        id: u128,
    ) -> (r: Vec<AnomalyDetection>)
        requires
            old(self).valid(),
        ensures
            final(self).valid(),
            final(self).volume_config() == old(self).volume_config(),
            final(self).price_config() == old(self).price_config(),
            final(self)@ == old(self)@.insert(
                market_key(exchange@, symbol@),
                market_step(old(self).market_of(symbol@, exchange@), *data),
            ),
            records(r@) == market_reports(old(self).market_of(symbol@, exchange@), *data, id),
    {
        let slot = self.get_or_create_detector(symbol, exchange);
        let ghost key = market_key(exchange@, symbol@);
        let ghost start = old(self).market_of(symbol@, exchange@);
        let ghost before = self.pairs();
        proof {
            lemma_assoc_get(before, slot as int);
            lemma_report_count(start.detectors, *data, id, 0);
        }
        let held = match self.entries[slot].last_report {
            Some(t) => data.timestamp as i128 - (t as i128) < REPORT_SPACING_MS as i128,
            None => false,
        };
        let found = self.entries[slot].detector.detect_all_with_id(data, id);
        let out = if held {
            Vec::new()
        } else {
            found
        };
        if out.len() > 0 {
            self.entries[slot].last_report = Some(data.timestamp);
        }
        proof {
            assert(records(out@) =~= market_reports(start, *data, id));
            assert(self.pairs() =~= before.update(slot as int, (key, market_step(start, *data))));
            lemma_assoc_update(before, slot as int, market_step(start, *data));
        }
        out
    }

    /// Hands one sample of a market to its detectors, as
    /// `process_data_with_id` does, each report under a new random
    /// identifier.
    pub fn process_data(&mut self, symbol: &str, exchange: &str, data: &TimeSeriesData) -> (r: Vec<
        AnomalyDetection,
    >)
        requires
            old(self).valid(),
        ensures
            final(self).valid(),
            final(self).volume_config() == old(self).volume_config(),
            final(self).price_config() == old(self).price_config(),
            final(self)@ == old(self)@.insert(
                market_key(exchange@, symbol@),
                market_step(old(self).market_of(symbol@, exchange@), *data),
            ),
            records_under_some_ids(
                r@,
                market_reports(old(self).market_of(symbol@, exchange@), *data, 0),
            ),
    {
        let found = self.process_data_with_id(symbol, exchange, data, 0);
        restamp(found)
    }

    /// Resets the detectors of a market, if the manager has any for it.
    pub fn reset(&mut self, symbol: &str, exchange: &str)
        requires
            old(self).valid(),
        ensures
            final(self).valid(),
            final(self).volume_config() == old(self).volume_config(),
            final(self).price_config() == old(self).price_config(),
            final(self)@ == if old(self)@.contains_key(market_key(exchange@, symbol@)) {
                old(self)@.insert(
                    market_key(exchange@, symbol@),
                    market_cleared(old(self)@[market_key(exchange@, symbol@)]),
                )
            } else {
                old(self)@
            },
    {
        let owned_symbol = String::from_str(symbol);
        let owned_exchange = String::from_str(exchange);
        let ghost key = market_key(exchange@, symbol@);
        proof {
            lemma_assoc_keys(self.pairs(), key);
        }
        match self.find(&owned_symbol, &owned_exchange) {
            Some(i) => {
                let ghost before = self.pairs();
                proof {
                    lemma_assoc_get(before, i as int);
                }
                self.entries[i].detector.reset_all();
                proof {
                    let cleared = market_cleared(before[i as int].1);
                    assert(self.pairs() =~= before.update(i as int, (key, cleared)));
                    lemma_assoc_update(before, i as int, cleared);
                }
            },
            None => {},
        }
    }

    /// Resets the detectors of every market.
    pub fn reset_all(&mut self)
        requires
            old(self).valid(),
        ensures
            final(self).valid(),
            final(self).volume_config() == old(self).volume_config(),
            final(self).price_config() == old(self).price_config(),
            final(self)@ == old(self)@.map_values(|s: MarketState| market_cleared(s)),
    {
        let n = self.entries.len();
        let mut i: usize = 0;
        while i < n
            invariant
                i <= n,
                n == self.entries@.len(),
                n == old(self).entries@.len(),
                self.volume_config == old(self).volume_config,
                self.price_config == old(self).price_config,
                forall|j: int| 0 <= j < n ==> (#[trigger] self.entries@[j]).detector.valid(),
                forall|j: int|
                    0 <= j < n ==> (#[trigger] self.entries@[j]).exchange == old(
                        self,
                    ).entries@[j].exchange && self.entries@[j].symbol == old(
                        self,
                    ).entries@[j].symbol,
                forall|j: int|
                    0 <= j < i ==> (#[trigger] self.entries@[j])@ == market_cleared(
                        old(self).entries@[j]@,
                    ),
                forall|j: int| i <= j < n ==> (#[trigger] self.entries@[j]) == old(self).entries@[j],
            decreases n - i,
        {
            self.entries[i].detector.reset_all();
            i = i + 1;
        }
        proof {
            let f = |s: MarketState| market_cleared(s);
            let before = old(self).pairs();
            assert(self.pairs() =~= Seq::new(before.len(), |j: int| (before[j].0, f(before[j].1))));
            lemma_assoc_map_values(before, f);
        }
    }

    /// The number of markets seen so far.
    pub fn len(&self) -> (n: usize)
        requires
            self.valid(),
        ensures
            n == self@.dom().len(),
    {
        proof {
            lemma_assoc_len(self.pairs());
        }
        self.entries.len()
    }
}

} // verus!
