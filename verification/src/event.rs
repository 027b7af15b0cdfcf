//! The kinds of event that the monitor moves, and the bus topic of each.

use crate::outside::{fresh_id, is_random_uuid, now_millis};
use vstd::prelude::*;
use vstd::string::*;

verus! {

/// Where an event came from.
#[derive(Debug)]
pub enum EventSource {
    Exchange(String),
    Monitor,
    Anomaly,
    Trading,
    User,
}

impl Clone for EventSource {
    fn clone(&self) -> (r: Self)
        ensures
            r == *self,
    {
        match self {
            EventSource::Exchange(name) => EventSource::Exchange(name.clone()),
            EventSource::Monitor => EventSource::Monitor,
            EventSource::Anomaly => EventSource::Anomaly,
            EventSource::Trading => EventSource::Trading,
            EventSource::User => EventSource::User,
        }
    }
}

/// What kind of market data an event carries.
#[derive(Clone, Copy, Debug, PartialEq, Eq, Structural)]
pub enum MarketDataType {
    Trade,
    OrderBook,
    Candle,
    Volume,
    Liquidation,
}

/// What kind of anomaly was detected.
#[derive(Clone, Copy, Debug, PartialEq, Eq, Structural)]
pub enum AnomalyType {
    VolumeSpike,
    PriceSpike,
    DepthImbalance,
    LargeOrder,
    UnusualActivity,
    FlashCrash,
    PumpDump,
}

/// What happened to an order or a position.
#[derive(Clone, Copy, Debug, PartialEq, Eq, Structural)]
pub enum TradeEventType {
    OrderPlaced,
    OrderFilled,
    OrderCancelled,
    PositionOpened,
    PositionClosed,
}

/// How urgent an alert is.
#[derive(Clone, Copy, Debug, PartialEq, Eq, Structural)]
pub enum AlertType {
    Info,
    Warning,
    Critical,
}

/// What happened to the system itself.
#[derive(Clone, Copy, Debug, PartialEq, Eq, Structural)]
pub enum SystemEventType {
    Started,
    Stopped,
    Connected,
    Disconnected,
    Error,
}

/// The kind of an event.
#[derive(Clone, Copy, Debug, PartialEq, Eq, Structural)]
pub enum EventType {
    MarketData(MarketDataType),
    Anomaly(AnomalyType),
    Trade(TradeEventType),
    Alert(AlertType),
    System(SystemEventType),
}

/// The topics of the bus, by what they carry.
#[derive(Clone, Copy, Debug, PartialEq, Eq, Structural)]
pub enum Topic {
    MarketTrades,
    MarketBook,
    Anomalies,
    Alerts,
    Trades,
}

/// The part of a topic's name that follows the prefix.
pub open spec fn topic_suffix(topic: Topic) -> Seq<char> {
    match topic {
        Topic::MarketTrades => ".market.trades"@,
        Topic::MarketBook => ".market.book"@,
        Topic::Anomalies => ".anomalies"@,
        Topic::Alerts => ".alerts"@,
        Topic::Trades => ".trades"@,
    }
}

/// The full name of a topic: the prefix, then the topic's suffix.
pub open spec fn topic_name_spec(prefix: Seq<char>, topic: Topic) -> Seq<char> {
    prefix + topic_suffix(topic)
}

/// The topic that carries events of a kind, where there is one: trades and
/// book updates have a market topic each, anomalies, alerts and trading events
/// one each, and nothing else is published.
pub open spec fn topic_of(event_type: EventType) -> Option<Topic> {
    match event_type {
        EventType::MarketData(MarketDataType::Trade) => Some(Topic::MarketTrades),
        EventType::MarketData(MarketDataType::OrderBook) => Some(Topic::MarketBook),
        EventType::MarketData(_) => None,
        EventType::Anomaly(_) => Some(Topic::Anomalies),
        EventType::Alert(_) => Some(Topic::Alerts),
        EventType::Trade(_) => Some(Topic::Trades),
        EventType::System(_) => None,
    }
}

impl Topic {
    /// The topic that carries events of a kind, where there is one.
    pub fn for_event(event_type: EventType) -> (t: Option<Topic>)
        ensures
            t == topic_of(event_type),
    {
        match event_type {
            EventType::MarketData(MarketDataType::Trade) => Some(Topic::MarketTrades),
            EventType::MarketData(MarketDataType::OrderBook) => Some(Topic::MarketBook),
            EventType::MarketData(_) => None,
            EventType::Anomaly(_) => Some(Topic::Anomalies),
            EventType::Alert(_) => Some(Topic::Alerts),
            EventType::Trade(_) => Some(Topic::Trades),
            EventType::System(_) => None,
        }
    }

    /// The topic's full name under a prefix.
    pub fn name(self, prefix: &str) -> (s: String)
        ensures
            s@ == topic_name_spec(prefix@, self),
    {
        let s = String::from_str(prefix);
        match self {
            Topic::MarketTrades => s.concat(".market.trades"),
            Topic::MarketBook => s.concat(".market.book"),
            Topic::Anomalies => s.concat(".anomalies"),
            Topic::Alerts => s.concat(".alerts"),
            Topic::Trades => s.concat(".trades"),
        }
    }

    /// Every topic, in the order in which they are created.
    pub fn all() -> (v: Vec<Topic>)
        ensures
            v@ == seq![
                Topic::MarketTrades,
                Topic::MarketBook,
                Topic::Anomalies,
                Topic::Alerts,
                Topic::Trades,
            ],
    {
        let mut v: Vec<Topic> = Vec::new();
        v.push(Topic::MarketTrades);
        v.push(Topic::MarketBook);
        v.push(Topic::Anomalies);
        v.push(Topic::Alerts);
        v.push(Topic::Trades);
        v
    }
}

/// The name of the topic on which an event of a kind is published under a
/// prefix, or `None` where such events are not published.
pub fn topic_for(event_type: EventType, prefix: &str) -> (name: Option<String>)
    ensures
        match topic_of(event_type) {
            Some(t) => name matches Some(s) && s@ == topic_name_spec(prefix@, t),
            None => name is None,
        },
{
    match Topic::for_event(event_type) {
        Some(t) => Some(t.name(prefix)),
        None => None,
    }
}

/// One event of the monitor: who raised it, what kind it is, and its data
/// as bytes of JSON.
#[derive(Debug)]
pub struct MonitorEvent {
    pub id: u128,
    pub timestamp: i64,
    pub source: EventSource,
    pub event_type: EventType,
    pub data: Vec<u8>,
}

/// The data of an event that was given none: the JSON value `null`.
pub open spec fn null_data() -> Seq<u8> {
    seq![110u8, 117u8, 108u8, 108u8]
}

/// Builds an event step by step.
#[derive(Debug)]
pub struct EventBuilder {
    id: u128,
    timestamp: i64,
    source: Option<EventSource>,
    event_type: Option<EventType>,
    data: Option<Vec<u8>>,
}

impl EventBuilder {
    /// The identifier that the event will have.
    pub closed spec fn id(&self) -> u128 {
        self.id
    }

    /// The time that the event will have, in milliseconds since the Unix
    /// epoch.
    pub closed spec fn timestamp(&self) -> i64 {
        self.timestamp
    }

    /// The source given so far.
    pub closed spec fn source(&self) -> Option<EventSource> {
        self.source
    }

    /// The kind given so far.
    pub closed spec fn event_type(&self) -> Option<EventType> {
        self.event_type
    }

    /// The data given so far.
    pub closed spec fn data(&self) -> Option<Seq<u8>> {
        match self.data {
            Some(d) => Some(d@),
            None => None,
        }
    }

    /// A builder for an event with the given identifier and time, and
    /// nothing else yet.
    pub fn with_id_and_time(id: u128, timestamp: i64) -> (b: Self)
        ensures
            b.id() == id,
            b.timestamp() == timestamp,
            b.source() is None,
            b.event_type() is None,
            b.data() is None,
    {
        EventBuilder { id, timestamp, source: None, event_type: None, data: None }
    }

    /// A builder for an event with a new random identifier and the time
    /// now, and nothing else yet.
    pub fn new() -> (b: Self)
        ensures
            is_random_uuid(b.id()),
            b.source() is None,
            b.event_type() is None,
            b.data() is None,
    {
        Self::with_id_and_time(fresh_id(), now_millis())
    }

    /// Gives the source.
    pub fn with_source(self, source: EventSource) -> (b: Self)
        ensures
            b.id() == self.id(),
            b.timestamp() == self.timestamp(),
            b.source() == Some(source),
            b.event_type() == self.event_type(),
            b.data() == self.data(),
    {
        EventBuilder {
            id: self.id,
            timestamp: self.timestamp,
            source: Some(source),
            event_type: self.event_type,
            data: self.data,
        }
    }

    /// Gives the kind.
    pub fn with_type(self, event_type: EventType) -> (b: Self)
        ensures
            b.id() == self.id(),
            b.timestamp() == self.timestamp(),
            b.source() == self.source(),
            b.event_type() == Some(event_type),
            b.data() == self.data(),
    {
        EventBuilder {
            id: self.id,
            timestamp: self.timestamp,
            source: self.source,
            event_type: Some(event_type),
            data: self.data,
        }
    }

    /// Gives the data.
    pub fn with_data(self, data: Vec<u8>) -> (b: Self)
        ensures
            b.id() == self.id(),
            b.timestamp() == self.timestamp(),
            b.source() == self.source(),
            b.event_type() == self.event_type(),
            b.data() == Some(data@),
    {
        EventBuilder {
            id: self.id,
            timestamp: self.timestamp,
            source: self.source,
            event_type: self.event_type,
            data: Some(data),
        }
    }

    /// The event, if both a source and a kind were given.  An event that was
    /// given no data carries `null`.
    pub fn build(self) -> (r: Option<MonitorEvent>)
        ensures
            match (self.source(), self.event_type()) {
                (Some(source), Some(event_type)) => r matches Some(e) && e.id == self.id()
                    && e.timestamp == self.timestamp() && e.source == source && e.event_type
                    == event_type && e.data@ == (match self.data() {
                    Some(d) => d,
                    None => null_data(),
                }),
                _ => r is None,
            },
    {
        let source = match self.source {
            Some(source) => source,
            None => {
                return None;
            },
        };
        let event_type = match self.event_type {
            Some(event_type) => event_type,
            None => {
                return None;
            },
        };
        let data = match self.data {
            Some(data) => data,
            None => {
                let mut null: Vec<u8> = Vec::new();
                null.push(110u8);
                null.push(117u8);
                null.push(108u8);
                null.push(108u8);
                null
            },
        };
        Some(MonitorEvent { id: self.id, timestamp: self.timestamp, source, event_type, data })
    }
}

/// The event that stands for a trade that came from an exchange: raised by
/// the exchange, of the kind of a market trade, at the time at which the
/// trade came in.
pub fn trade_event(exchange: &str, time_received: i64, data: Vec<u8>, id: u128) -> (e: MonitorEvent)
    ensures
        e.id == id,
        e.timestamp == time_received,
        e.source matches EventSource::Exchange(name) && name@ == exchange@,
        e.event_type == EventType::MarketData(MarketDataType::Trade),
        e.data@ == data@,
{
    MonitorEvent {
        id,
        timestamp: time_received,
        source: EventSource::Exchange(String::from_str(exchange)),
        event_type: EventType::MarketData(MarketDataType::Trade),
        data,
    }
}

} // verus!
