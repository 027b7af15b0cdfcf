//! The pipeline: what is done with each market event.  An event with a
//! number out of range is turned away.  Any other is handed to the monitor of
//! its instrument, counted for its exchange, and routed to its topic, as is
//! the alert that the monitor may emit.

use crate::anomaly::{records, records_under_some_ids, restamp, AnomalyDetection, AnomalyRecord};
use crate::assoc::{
    assoc_map, has_key, lemma_assoc_get, lemma_assoc_keys, lemma_assoc_push, lemma_assoc_update,
    unique_keys,
};
use crate::event::{topic_name_spec, Topic};
use crate::key::{fingerprint_spec, slot_for, slot_of, InstrumentKey, InstrumentKeyView};
use crate::monitor::{
    accumulated, monitor_after, monitor_after_book, monitor_emits, raised, MonitorConfig,
    MonitorState, TOTAL_VOLUME_CAP,
};
use crate::registry::DetectorRegistry;
use crate::window::{in_range, TimeSeriesWindow};
use vstd::prelude::*;
use vstd::string::*;

verus! {

/// The side of a trade.
#[derive(Clone, Copy, Debug, PartialEq, Eq, Structural)]
pub enum Side {
    Buy,
    Sell,
}

/// What a market event carries: a trade, or the top of the book.  Prices and
/// quantities are in ticks.
#[derive(Clone, Copy, Debug, PartialEq, Eq, Structural)]
pub enum MarketEventKind {
    Trade { price: i64, quantity: i64, side: Side },
    BookTop { bid_price: i64, bid_quantity: i64, ask_price: i64, ask_quantity: i64 },
}

/// One market event of one instrument, with the time that the exchange gave
/// it and the time at which it came in, both in milliseconds since the Unix
/// epoch.
#[derive(Debug)]
pub struct MarketEvent {
    pub instrument_key: InstrumentKey,
    pub exchange_time: i64,
    pub ingest_time: i64,
    pub kind: MarketEventKind,
}

/// Whether every number of an event is in range.
pub open spec fn kind_in_range(kind: MarketEventKind) -> bool {
    match kind {
        MarketEventKind::Trade { price, quantity, side } => in_range(price) && in_range(quantity),
        MarketEventKind::BookTop {
            bid_price,
            bid_quantity,
            ask_price,
            ask_quantity,
        } => in_range(bid_price) && in_range(bid_quantity) && in_range(ask_price) && in_range(
            ask_quantity,
        ),
    }
}

/// The topic of the raw events of a kind.
pub open spec fn raw_topic(kind: MarketEventKind) -> Topic {
    match kind {
        MarketEventKind::Trade { .. } => Topic::MarketTrades,
        MarketEventKind::BookTop { .. } => Topic::MarketBook,
    }
}

/// The counters of one exchange.
#[derive(Clone, Copy, Debug, PartialEq, Eq, Structural)]
pub struct ExchangeStats {
    pub trades_count: u64,
    pub orderbook_updates: u64,
    pub last_price: Option<i64>,
    pub last_bid: Option<i64>,
    pub last_ask: Option<i64>,
    pub total_volume: i128,
    pub first_update_time: Option<i64>,
    pub last_update_time: Option<i64>,
}

/// The counters of an exchange of which nothing was seen.
pub open spec fn no_stats() -> ExchangeStats {
    ExchangeStats {
        trades_count: 0,
        orderbook_updates: 0,
        last_price: None,
        last_bid: None,
        last_ask: None,
        total_volume: 0,
        first_update_time: None,
        last_update_time: None,
    }
}

/// The counters of an exchange after an event in range: the time of the
/// first update stays once set, that of the last follows; a trade is counted
/// and its price and quantity recorded; a book update is counted and its
/// prices recorded.
pub open spec fn stats_after(s: ExchangeStats, kind: MarketEventKind, time: i64) -> ExchangeStats {
    let first = match s.first_update_time {
        Some(t) => Some(t),
        None => Some(time),
    };
    match kind {
        MarketEventKind::Trade { price, quantity, side } => ExchangeStats {
            trades_count: raised(s.trades_count, 1),
            last_price: Some(price),
            total_volume: accumulated(s.total_volume, quantity),
            first_update_time: first,
            last_update_time: Some(time),
            ..s
        },
        MarketEventKind::BookTop {
            bid_price,
            bid_quantity,
            ask_price,
            ask_quantity,
        } => ExchangeStats {
            orderbook_updates: raised(s.orderbook_updates, 1),
            last_bid: Some(bid_price),
            last_ask: Some(ask_price),
            first_update_time: first,
            last_update_time: Some(time),
            ..s
        },
    }
}

impl ExchangeStats {
    /// The counters of an exchange of which nothing was seen.
    pub fn new() -> (s: Self)
        ensures
            s == no_stats(),
    {
        ExchangeStats {
            trades_count: 0,
            orderbook_updates: 0,
            last_price: None,
            last_bid: None,
            last_ask: None,
            total_volume: 0,
            first_update_time: None,
            last_update_time: None,
        }
    }

    /// Whether the running total is within its bounds.
    pub open spec fn wf(self) -> bool {
        -TOTAL_VOLUME_CAP <= self.total_volume <= TOTAL_VOLUME_CAP
    }

    /// Counts one event in range.
    pub fn record(&mut self, kind: MarketEventKind, time: i64)
        requires
            old(self).wf(),
            kind_in_range(kind),
        ensures
            final(self).wf(),
            *final(self) == stats_after(*old(self), kind, time),
    {
        if self.first_update_time.is_none() {
            self.first_update_time = Some(time);
        }
        self.last_update_time = Some(time);
        match kind {
            MarketEventKind::Trade { price, quantity, side } => {
                self.trades_count = if self.trades_count == u64::MAX {
                    u64::MAX
                } else {
                    self.trades_count + 1
                };
                self.last_price = Some(price);
                let t: i128 = self.total_volume + quantity as i128;
                self.total_volume = if t > TOTAL_VOLUME_CAP {
                    TOTAL_VOLUME_CAP
                } else if t < -TOTAL_VOLUME_CAP {
                    -TOTAL_VOLUME_CAP
                } else {
                    t
                };
            },
            MarketEventKind::BookTop { bid_price, bid_quantity, ask_price, ask_quantity } => {
                self.orderbook_updates = if self.orderbook_updates == u64::MAX {
                    u64::MAX
                } else {
                    self.orderbook_updates + 1
                };
                self.last_bid = Some(bid_price);
                self.last_ask = Some(ask_price);
            },
        }
    }
}

/// Where something is published: the topic and its name, the key, and the
/// partition.
#[derive(Debug)]
pub struct Publication {
    pub topic: Topic,
    pub topic_name: String,
    pub key: String,
    pub partition: u64,
}

/// A publication as a mathematical value.
pub struct Route {
    pub topic: Topic,
    pub topic_name: Seq<char>,
    pub key: Seq<char>,
    pub partition: int,
}

impl View for Publication {
    type V = Route;

    open spec fn view(&self) -> Route {
        Route {
            topic: self.topic,
            topic_name: self.topic_name@,
            key: self.key@,
            partition: self.partition as int,
        }
    }
}

/// Where what concerns an instrument is published on a topic: under the
/// topic's name, keyed by the instrument's fingerprint, on the partition that
/// the fingerprint's hash picks.
pub open spec fn route_spec(prefix: Seq<char>, partitions: u64, fingerprint: Seq<char>, topic: Topic) -> Route {
    Route {
        topic,
        topic_name: topic_name_spec(prefix, topic),
        key: fingerprint,
        partition: slot_of(fingerprint, partitions as int),
    }
}

/// Partition-key stability.  What concerns instruments with the same
/// fingerprint is published under the same key on the same partition of each
/// topic.
pub proof fn lemma_same_fingerprint_same_partition(
    prefix: Seq<char>,
    partitions: u64,
    a: InstrumentKeyView,
    b: InstrumentKeyView,
    topic: Topic,
)
    requires
        fingerprint_spec(a) == fingerprint_spec(b),
    ensures
        route_spec(prefix, partitions, fingerprint_spec(a), topic) == route_spec(
            prefix,
            partitions,
            fingerprint_spec(b),
            topic,
        ),
        partitions > 0 ==> 0 <= route_spec(prefix, partitions, fingerprint_spec(a), topic).partition
            < partitions,
{
}

/// Where what concerns an instrument is published on a topic.
pub fn route(prefix: &str, partitions: u64, key: &InstrumentKey, topic: Topic) -> (p: Publication)
    ensures
        p@ == route_spec(prefix@, partitions, fingerprint_spec(key@), topic),
{
    let fingerprint = key.fingerprint();
    let partition = slot_for(fingerprint.as_str(), partitions);
    Publication { topic, topic_name: topic.name(prefix), key: fingerprint, partition }
}

/// What the pipeline did with one event: whether it took it, where the raw
/// event is to be published, which alerts the monitor emitted, and where
/// they are to be published.
#[derive(Debug)]
pub struct PipelineOutput {
    pub accepted: bool,
    pub raw: Option<Publication>,
    pub anomalies: Vec<AnomalyDetection>,
    pub anomaly_route: Option<Publication>,
}

/// The counters of one exchange, under the exchange's name.
#[derive(Debug)]
pub struct ExchangeEntry {
    name: String,
    stats: ExchangeStats,
}

/// The pipeline: the registry of monitors, the counters of each exchange,
/// and the counters of events turned away and of failed publications.
#[derive(Debug)]
pub struct Pipeline {
    registry: DetectorRegistry,
    exchanges: Vec<ExchangeEntry>,
    prefix: String,
    partitions: u64,
    rejected: u64,
    publish_failed: u64,
}

/// What a pipeline holds, as a mathematical value.
pub struct PipelineState {
    pub monitors: Map<Seq<char>, MonitorState>,
    pub config: MonitorConfig,
    pub exchanges: Map<Seq<char>, ExchangeStats>,
    pub prefix: Seq<char>,
    pub partitions: u64,
    pub rejected: u64,
    pub publish_failed: u64,
}

/// The counters that the pipeline holds for an exchange, or those of an
/// exchange of which nothing was seen.
pub open spec fn exchange_stats_of(s: PipelineState, exchange: Seq<char>) -> ExchangeStats {
    if s.exchanges.contains_key(exchange) {
        s.exchanges[exchange]
    } else {
        no_stats()
    }
}

/// The monitor that the pipeline holds for an instrument, or that of a new
/// instrument.
pub open spec fn pipeline_monitor_of(s: PipelineState, key: InstrumentKeyView) -> MonitorState {
    if s.monitors.contains_key(fingerprint_spec(key)) {
        s.monitors[fingerprint_spec(key)]
    } else {
        crate::monitor::fresh_monitor(s.config, crate::key::symbol_spec(key), key.exchange_id)
    }
}

/// What the pipeline holds after an event.  An event with a number out of
/// range is counted as turned away and changes nothing else.  Any other is
/// handed to the monitor of its instrument and counted for its exchange.
pub open spec fn pipeline_after(
    s: PipelineState,
    key: InstrumentKeyView,
    kind: MarketEventKind,
    exchange_time: i64,
) -> PipelineState {
    if !kind_in_range(kind) {
        PipelineState { rejected: raised(s.rejected, 1), ..s }
    } else {
        let monitor = pipeline_monitor_of(s, key);
        PipelineState {
            monitors: s.monitors.insert(
                fingerprint_spec(key),
                kind_step(monitor, kind, exchange_time),
            ),
            exchanges: s.exchanges.insert(
                key.exchange_id,
                stats_after(exchange_stats_of(s, key.exchange_id), kind, exchange_time),
            ),
            ..s
        }
    }
}

/// The alerts that the pipeline emits for an event.
pub open spec fn pipeline_alerts(
    s: PipelineState,
    key: InstrumentKeyView,
    kind: MarketEventKind,
    exchange_time: i64,
    id: u128,
) -> Seq<AnomalyRecord> {
    kind_alerts(pipeline_monitor_of(s, key), kind, exchange_time, id)
}

/// How the pipeline fares.
#[derive(Clone, Copy, Debug, PartialEq, Eq, Structural)]
pub enum Health {
    Healthy,
    Degraded,
}

/// The health of a pipeline: degraded once a publication has failed after
/// all its tries.
pub open spec fn health_of(s: PipelineState) -> Health {
    if s.publish_failed > 0 {
        Health::Degraded
    } else {
        Health::Healthy
    }
}

/// The publication as a mathematical value, if there is one.
pub open spec fn route_view(p: Option<Publication>) -> Option<Route> {
    match p {
        Some(r) => Some(r@),
        None => None,
    }
}

impl View for Pipeline {
    type V = PipelineState;

    closed spec fn view(&self) -> PipelineState {
        PipelineState {
            monitors: self.registry@,
            config: self.registry.config(),
            exchanges: assoc_map(self.exchange_pairs()),
            prefix: self.prefix@,
            partitions: self.partitions,
            rejected: self.rejected,
            publish_failed: self.publish_failed,
        }
    }
}

impl Pipeline {
    /// The names and counters of the exchanges, in the order in which they
    /// came.
    pub closed spec fn exchange_pairs(&self) -> Seq<(Seq<char>, ExchangeStats)> {
        Seq::new(self.exchanges@.len(), |i: int| (self.exchanges@[i].name@, self.exchanges@[i].stats))
    }

    /// The number of shards over which the pipeline spreads its monitors.
    pub closed spec fn shard_count(&self) -> nat {
        self.registry.shard_count()
    }

    /// The pipeline's invariant.
    pub closed spec fn valid(&self) -> bool {
        &&& self.registry.valid()
        &&& unique_keys(self.exchange_pairs())
        &&& forall|i: int| 0 <= i < self.exchanges@.len() ==> (#[trigger] self.exchanges@[i]).stats.wf()
    }

    /// A pipeline that has seen nothing, with its monitors spread over
    /// `shards` shards.
    pub fn new(config: MonitorConfig, shards: usize, prefix: &str, partitions: u64) -> (p: Self)
        requires
            config.wf(),
            shards >= 1,
        ensures
            p.valid(),
            p.shard_count() == shards,
            p@ == (PipelineState {
                monitors: Map::empty(),
                config,
                exchanges: Map::empty(),
                prefix: prefix@,
                partitions,
                rejected: 0,
                publish_failed: 0,
            }),
    {
        Pipeline {
            registry: DetectorRegistry::new(config, shards),
            exchanges: Vec::new(),
            prefix: String::from_str(prefix),
            partitions,
            rejected: 0,
            publish_failed: 0,
        }
    }

    /// Whether every number of an event is in range.
    pub fn is_acceptable(kind: &MarketEventKind) -> (r: bool)
        ensures
            r == kind_in_range(*kind),
    {
        match kind {
            MarketEventKind::Trade { price, quantity, side } => TimeSeriesWindow::accepts(*price)
                && TimeSeriesWindow::accepts(*quantity),
            MarketEventKind::BookTop {
                bid_price,
                bid_quantity,
                ask_price,
                ask_quantity,
            } => TimeSeriesWindow::accepts(*bid_price) && TimeSeriesWindow::accepts(*bid_quantity)
                && TimeSeriesWindow::accepts(*ask_price) && TimeSeriesWindow::accepts(
                *ask_quantity,
            ),
        }
    }

    fn find_exchange(&self, name: &String) -> (r: Option<usize>)
        ensures
            match r {
                Some(i) => i < self.exchanges@.len() && self.exchange_pairs()[i as int].0 == name@,
                None => !has_key(self.exchange_pairs(), name@),
            },
    {
        let mut i: usize = 0;
        while i < self.exchanges.len()
            invariant
                i <= self.exchanges@.len(),
                forall|j: int| 0 <= j < i ==> (#[trigger] self.exchange_pairs()[j]).0 != name@,
            decreases self.exchanges@.len() - i,
        {
            if self.exchanges[i].name == *name {
                return Some(i);
            }
            i = i + 1;
        }
        None
    }

    /// Counts one event in range for its exchange.
    fn count(&mut self, exchange: &String, kind: MarketEventKind, time: i64)
        requires
            old(self).valid(),
            kind_in_range(kind),
        ensures
            final(self).valid(),
            final(self).shard_count() == old(self).shard_count(),
            final(self)@ == (PipelineState {
                exchanges: old(self)@.exchanges.insert(
                    exchange@,
                    stats_after(exchange_stats_of(old(self)@, exchange@), kind, time),
                ),
                ..old(self)@
            }),
    {
        let ghost before = self.exchange_pairs();
        proof {
            lemma_assoc_keys(before, exchange@);
        }
        match self.find_exchange(exchange) {
            Some(i) => {
                proof {
                    lemma_assoc_get(before, i as int);
                }
                self.exchanges[i].stats.record(kind, time);
                proof {
                    let next = stats_after(before[i as int].1, kind, time);
                    assert(self.exchange_pairs() =~= before.update(i as int, (exchange@, next)));
                    lemma_assoc_update(before, i as int, next);
                }
            },
            None => {
                let mut stats = ExchangeStats::new();
                stats.record(kind, time);
                self.exchanges.push(ExchangeEntry { name: exchange.clone(), stats });
                proof {
                    assert(self.exchange_pairs() =~= before.push((exchange@, stats)));
                    lemma_assoc_push(before, exchange@, stats);
                }
            },
        }
    }

    /// Takes one event: turns it away if a number is out of range; else
    /// hands it to the monitor of its instrument, counts it for its exchange,
    /// and says where the event and any alert are to be published.  An alert
    /// is emitted under the identifier `id`.
    pub fn process_with_id(&mut self, event: &MarketEvent, id: u128) -> (out: PipelineOutput)
        requires
            old(self).valid(),
        ensures
            final(self).valid(),
            final(self).shard_count() == old(self).shard_count(),
            final(self)@ == pipeline_after(
                old(self)@,
                event.instrument_key@,
                event.kind,
                event.exchange_time,
            ),
            out.accepted == kind_in_range(event.kind),
            records(out.anomalies@) == pipeline_alerts(
                old(self)@,
                event.instrument_key@,
                event.kind,
                event.exchange_time,
                id,
            ),
            route_view(out.raw) == (if out.accepted {
                Some(
                    route_spec(
                        old(self)@.prefix,
                        old(self)@.partitions,
                        fingerprint_spec(event.instrument_key@),
                        raw_topic(event.kind),
                    ),
                )
            } else {
                None
            }),
            route_view(out.anomaly_route) == (if out.anomalies@.len() > 0 {
                Some(
                    route_spec(
                        old(self)@.prefix,
                        old(self)@.partitions,
                        fingerprint_spec(event.instrument_key@),
                        Topic::Anomalies,
                    ),
                )
            } else {
                None
            }),
    {
        if !Self::is_acceptable(&event.kind) {
            self.rejected = if self.rejected == u64::MAX {
                u64::MAX
            } else {
                self.rejected + 1
            };
            let anomalies: Vec<AnomalyDetection> = Vec::new();
            return PipelineOutput { accepted: false, raw: None, anomalies, anomaly_route: None };
        }
        let anomalies = match event.kind {
            MarketEventKind::Trade { price, quantity, side } => self.registry.observe_trade_with_id(
                &event.instrument_key,
                price,
                quantity,
                event.exchange_time,
                id,
            ),
            MarketEventKind::BookTop { bid_price, bid_quantity, ask_price, ask_quantity } => {
                self.registry.observe_book_top(
                    &event.instrument_key,
                    bid_price,
                    bid_quantity,
                    ask_price,
                    ask_quantity,
                );
                Vec::new()
            },
        };
        self.count(&event.instrument_key.exchange_id, event.kind, event.exchange_time);
        let topic = match event.kind {
            MarketEventKind::Trade { .. } => Topic::MarketTrades,
            MarketEventKind::BookTop { .. } => Topic::MarketBook,
        };
        let raw = route(self.prefix.as_str(), self.partitions, &event.instrument_key, topic);
        let anomaly_route = if anomalies.len() > 0 {
            Some(
                route(self.prefix.as_str(), self.partitions, &event.instrument_key, Topic::Anomalies),
            )
        } else {
            None
        };
        PipelineOutput { accepted: true, raw: Some(raw), anomalies, anomaly_route }
    }

    /// Takes one event, as `process_with_id` does, with alerts under new
    /// random identifiers.
    pub fn process(&mut self, event: &MarketEvent) -> (out: PipelineOutput)
        requires
            old(self).valid(),
        ensures
            final(self).valid(),
            final(self).shard_count() == old(self).shard_count(),
            final(self)@ == pipeline_after(
                old(self)@,
                event.instrument_key@,
                event.kind,
                event.exchange_time,
            ),
            out.accepted == kind_in_range(event.kind),
            records_under_some_ids(
                out.anomalies@,
                pipeline_alerts(
                    old(self)@,
                    event.instrument_key@,
                    event.kind,
                    event.exchange_time,
                    0,
                ),
            ),
            route_view(out.raw) == (if out.accepted {
                Some(
                    route_spec(
                        old(self)@.prefix,
                        old(self)@.partitions,
                        fingerprint_spec(event.instrument_key@),
                        raw_topic(event.kind),
                    ),
                )
            } else {
                None
            }),
            route_view(out.anomaly_route) == (if out.anomalies@.len() > 0 {
                Some(
                    route_spec(
                        old(self)@.prefix,
                        old(self)@.partitions,
                        fingerprint_spec(event.instrument_key@),
                        Topic::Anomalies,
                    ),
                )
            } else {
                None
            }),
    {
        let found = self.process_with_id(event, 0);
        let PipelineOutput { accepted, raw, anomalies, anomaly_route } = found;
        let stamped = restamp(anomalies);
        PipelineOutput { accepted, raw, anomalies: stamped, anomaly_route }
    }

    /// Counts a publication that failed after all its tries.  The stream
    /// goes on.
    pub fn record_publish_failure(&mut self)
        requires
            old(self).valid(),
        ensures
            final(self).valid(),
            final(self).shard_count() == old(self).shard_count(),
            final(self)@ == (PipelineState {
                publish_failed: raised(old(self)@.publish_failed, 1),
                ..old(self)@
            }),
    {
        self.publish_failed = if self.publish_failed == u64::MAX {
            u64::MAX
        } else {
            self.publish_failed + 1
        };
    }

    /// The health of the pipeline: degraded once a publication has failed
    /// after all its tries.
    pub fn health(&self) -> (h: Health)
        ensures
            h == health_of(self@),
    {
        if self.publish_failed > 0 {
            Health::Degraded
        } else {
            Health::Healthy
        }
    }

    /// The number of events turned away.
    pub fn rejected(&self) -> (n: u64)
        ensures
            n == self@.rejected,
    {
        self.rejected
    }

    /// The number of publications that failed after all their tries.
    pub fn publish_failed(&self) -> (n: u64)
        ensures
            n == self@.publish_failed,
    {
        self.publish_failed
    }

    /// The counters of an exchange, if anything was seen of it.
    pub fn exchange_stats(&self, exchange: &String) -> (r: Option<ExchangeStats>)
        requires
            self.valid(),
        ensures
            r == (if self@.exchanges.contains_key(exchange@) {
                Some(self@.exchanges[exchange@])
            } else {
                None
            }),
    {
        proof {
            lemma_assoc_keys(self.exchange_pairs(), exchange@);
        }
        match self.find_exchange(exchange) {
            Some(i) => {
                proof {
                    lemma_assoc_get(self.exchange_pairs(), i as int);
                }
                Some(self.exchanges[i].stats)
            },
            None => None,
        }
    }

    /// The counters and latest statistics of an instrument, if anything was
    /// seen of it.
    pub fn instrument_stats(&self, key: &InstrumentKey) -> (r: Option<crate::monitor::InstrumentStats>)
        requires
            self.valid(),
        ensures
            r == (if self@.monitors.contains_key(fingerprint_spec(key@)) {
                Some(crate::monitor::stats_of(self@.monitors[fingerprint_spec(key@)]))
            } else {
                None
            }),
    {
        self.registry.stats(key)
    }
}

/// One event as the pipeline takes it, with the identifier that an alert
/// for it would carry.
pub struct Incoming {
    pub key: InstrumentKeyView,
    pub kind: MarketEventKind,
    pub time: i64,
    pub id: u128,
}

/// What the pipeline holds after a sequence of events.
pub open spec fn pipeline_run(s: PipelineState, events: Seq<Incoming>) -> PipelineState
    decreases events.len(),
{
    if events.len() == 0 {
        s
    } else {
        pipeline_after(
            pipeline_run(s, events.drop_last()),
            events.last().key,
            events.last().kind,
            events.last().time,
        )
    }
}

/// The alerts that the pipeline emits, over a sequence of events, for the
/// instruments of one fingerprint, in the order in which they are published.
pub open spec fn alerts_of(s: PipelineState, events: Seq<Incoming>, fingerprint: Seq<char>) -> Seq<
    AnomalyRecord,
>
    decreases events.len(),
{
    if events.len() == 0 {
        Seq::empty()
    } else if fingerprint_spec(events.last().key) == fingerprint {
        alerts_of(s, events.drop_last(), fingerprint) + pipeline_alerts(
            pipeline_run(s, events.drop_last()),
            events.last().key,
            events.last().kind,
            events.last().time,
            events.last().id,
        )
    } else {
        alerts_of(s, events.drop_last(), fingerprint)
    }
}

/// The time that must pass between two alerts for a fingerprint: that of
/// its monitor, or that of the monitors yet to be made.
pub open spec fn debounce_of(s: PipelineState, fingerprint: Seq<char>) -> int {
    if s.monitors.contains_key(fingerprint) {
        s.monitors[fingerprint].config.debounce_ms as int
    } else {
        s.config.debounce_ms as int
    }
}

/// The time of the last alert for a fingerprint, if there was one.
pub open spec fn last_alert_of(s: PipelineState, fingerprint: Seq<char>) -> Option<i64> {
    if s.monitors.contains_key(fingerprint) {
        s.monitors[fingerprint].last_alert_at
    } else {
        None
    }
}

/// Debouncing, as the bus sees it.  Whatever events the pipeline takes, and
/// of whatever instruments, between any two alerts that it publishes for one
/// fingerprint at least that fingerprint's debounce time passes; and as much
/// passes between the last alert before and each of them.
pub proof fn lemma_published_alerts_spaced(
    s: PipelineState,
    events: Seq<Incoming>,
    fingerprint: Seq<char>,
)
    requires
        0 <= debounce_of(s, fingerprint),
    ensures
        pipeline_run(s, events).config == s.config,
        debounce_of(pipeline_run(s, events), fingerprint) == debounce_of(s, fingerprint),
        last_alert_of(pipeline_run(s, events), fingerprint) == crate::monitor::last_alert_after(
            last_alert_of(s, fingerprint),
            alerts_of(s, events, fingerprint),
        ),
        forall|i: int, j: int|
            0 <= i < j < alerts_of(s, events, fingerprint).len() ==> alerts_of(
                s,
                events,
                fingerprint,
            )[j].timestamp - alerts_of(s, events, fingerprint)[i].timestamp >= debounce_of(
                s,
                fingerprint,
            ),
        last_alert_of(s, fingerprint) matches Some(t) ==> forall|i: int|
            0 <= i < alerts_of(s, events, fingerprint).len() ==> (#[trigger] alerts_of(
                s,
                events,
                fingerprint,
            )[i]).timestamp - t >= debounce_of(s, fingerprint),
    decreases events.len(),
{
    if events.len() > 0 {
        let head = events.drop_last();
        let last = events.last();
        lemma_published_alerts_spaced(s, head, fingerprint);
        let mid = pipeline_run(s, head);
        let earlier = alerts_of(s, head, fingerprint);
        let all = alerts_of(s, events, fingerprint);
        if fingerprint_spec(last.key) == fingerprint {
            let monitor = pipeline_monitor_of(mid, last.key);
            let fresh = pipeline_alerts(mid, last.key, last.kind, last.time, last.id);
            assert(all == earlier + fresh);
            assert(monitor.config.debounce_ms == debounce_of(s, fingerprint));
            assert(monitor.last_alert_at == last_alert_of(mid, fingerprint));
            lemma_step_spaced(monitor, last.kind, last.time, last.id);
            if fresh.len() > 0 {
                assert(fresh.len() == 1);
                assert(fresh[0].timestamp == last.time);
                assert(all.len() == earlier.len() + 1);
                assert(all[earlier.len() as int] == fresh[0]);
                assert forall|i: int, j: int| 0 <= i < j < all.len() implies all[j].timestamp
                    - all[i].timestamp >= debounce_of(s, fingerprint) by {
                    assert(all[i] == earlier[i]);
                    if j < earlier.len() {
                        assert(all[j] == earlier[j]);
                    } else if i < earlier.len() - 1 {
                        assert(earlier[earlier.len() - 1].timestamp - earlier[i].timestamp
                            >= debounce_of(s, fingerprint));
                    }
                }
                if let Some(t) = last_alert_of(s, fingerprint) {
                    assert forall|i: int| 0 <= i < all.len() implies (#[trigger] all[i]).timestamp
                        - t >= debounce_of(s, fingerprint) by {
                        if i < earlier.len() {
                            assert(all[i] == earlier[i]);
                        }
                    }
                }
            } else {
                assert(all =~= earlier);
            }
        } else {
            assert(all == earlier);
        }
    }
}

/// What one event does to the monitor that takes it: an alert is emitted
/// only where the last alert lies far enough back, it carries the time of the
/// event, and that time is then the time of the last alert; without an alert
/// the time of the last alert stays.  The monitor keeps its configuration.
proof fn lemma_step_spaced(m: MonitorState, kind: MarketEventKind, time: i64, id: u128)
    ensures
        kind_step(m, kind, time).config == m.config,
        kind_alerts(m, kind, time, id).len() <= 1,
        kind_alerts(m, kind, time, id).len() == 1 ==> {
            &&& kind_alerts(m, kind, time, id)[0].timestamp == time
            &&& kind_step(m, kind, time).last_alert_at == Some(time)
            &&& (m.last_alert_at matches Some(t) ==> time - t >= m.config.debounce_ms)
        },
        kind_alerts(m, kind, time, id).len() == 0 ==> kind_step(m, kind, time).last_alert_at
            == m.last_alert_at,
{
}

/// What a monitor holds after an event in range.
pub open spec fn kind_step(m: MonitorState, kind: MarketEventKind, time: i64) -> MonitorState {
    match kind {
        MarketEventKind::Trade { price, quantity, side } => monitor_after(m, price, quantity, time),
        MarketEventKind::BookTop {
            bid_price,
            bid_quantity,
            ask_price,
            ask_quantity,
        } => monitor_after_book(m, bid_price, bid_quantity, ask_price, ask_quantity),
    }
}

/// What a monitor emits for an event.
pub open spec fn kind_alerts(m: MonitorState, kind: MarketEventKind, time: i64, id: u128) -> Seq<
    AnomalyRecord,
> {
    match kind {
        MarketEventKind::Trade { price, quantity, side } => if kind_in_range(kind) {
            monitor_emits(m, price, quantity, time, id)
        } else {
            Seq::empty()
        },
        MarketEventKind::BookTop { .. } => Seq::empty(),
    }
}

/// Time order, as the bus sees it.  Whatever events the pipeline takes, the
/// alerts that it publishes for one fingerprint carry times that never go
/// back.
pub proof fn lemma_published_alerts_in_time_order(
    s: PipelineState,
    events: Seq<Incoming>,
    fingerprint: Seq<char>,
)
    requires
        0 <= debounce_of(s, fingerprint),
    ensures
        forall|i: int, j: int|
            0 <= i <= j < alerts_of(s, events, fingerprint).len() ==> alerts_of(
                s,
                events,
                fingerprint,
            )[i].timestamp <= alerts_of(s, events, fingerprint)[j].timestamp,
{
    lemma_published_alerts_spaced(s, events, fingerprint);
}

/// No monitor is ever removed.  Whatever events the pipeline takes, it
/// keeps a monitor for every fingerprint for which it had one, and it has
/// turned away at least as many events after as before.
pub proof fn lemma_monitors_are_kept(s: PipelineState, events: Seq<Incoming>)
    ensures
        s.monitors.dom().subset_of(pipeline_run(s, events).monitors.dom()),
        pipeline_run(s, events).rejected >= s.rejected,
        pipeline_run(s, events).publish_failed == s.publish_failed,
    decreases events.len(),
{
    if events.len() > 0 {
        lemma_monitors_are_kept(s, events.drop_last());
        let mid = pipeline_run(s, events.drop_last());
        let last = events.last();
        let after = pipeline_after(mid, last.key, last.kind, last.time);
        assert(mid.monitors.dom().subset_of(after.monitors.dom()));
        assert(after.rejected >= mid.rejected);
    }
}

} // verus!
