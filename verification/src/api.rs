//! What the control plane and its subscribers exchange with the monitor.

use crate::error::{error_label, error_message, MonitorError};
use crate::outside::now_millis;
use vstd::prelude::*;
use vstd::string::*;

verus! {

/// The kinds of message on a subscriber's connection.
#[derive(Clone, Copy, Debug, PartialEq, Eq, Structural)]
pub enum WsMessageType {
    Subscribe,
    Unsubscribe,
    MarketData,
    Anomaly,
    Alert,
    Trade,
    Heartbeat,
}

/// What a subscriber asked for.
#[derive(Debug)]
pub struct Subscription {
    pub channel: String,
    pub symbols: Vec<String>,
    pub exchanges: Vec<String>,
}

/// What a subscriber is to do with a message that a client sent.
#[derive(Clone, Copy, Debug, PartialEq, Eq, Structural)]
pub enum ClientAction {
    AddSubscription,
    RemoveSubscription,
    EchoHeartbeat,
    Ignore,
}

/// What is done with a message of a kind that a client sent.
pub open spec fn client_action_spec(kind: WsMessageType) -> ClientAction {
    match kind {
        WsMessageType::Subscribe => ClientAction::AddSubscription,
        WsMessageType::Unsubscribe => ClientAction::RemoveSubscription,
        WsMessageType::Heartbeat => ClientAction::EchoHeartbeat,
        _ => ClientAction::Ignore,
    }
}

/// What is done with a message of a kind that a client sent.
pub fn client_action(kind: WsMessageType) -> (a: ClientAction)
    ensures
        a == client_action_spec(kind),
{
    match kind {
        WsMessageType::Subscribe => ClientAction::AddSubscription,
        WsMessageType::Unsubscribe => ClientAction::RemoveSubscription,
        WsMessageType::Heartbeat => ClientAction::EchoHeartbeat,
        _ => ClientAction::Ignore,
    }
}

/// The channel on which messages of a kind go out, if they go out on one
/// of their own.
pub open spec fn channel_of(kind: WsMessageType) -> Option<Seq<char>> {
    match kind {
        WsMessageType::Anomaly => Some("anomalies"@),
        WsMessageType::Alert => Some("alerts"@),
        _ => None,
    }
}

/// Whether a subscription takes messages of a kind: market data goes to
/// every subscription; anomalies and alerts go to the subscriptions of their
/// channel and to those of the channel `all`; nothing else goes out.
pub open spec fn wants(channel: Seq<char>, kind: WsMessageType) -> bool {
    match kind {
        WsMessageType::MarketData => true,
        WsMessageType::Anomaly => channel == "anomalies"@ || channel == "all"@,
        WsMessageType::Alert => channel == "alerts"@ || channel == "all"@,
        _ => false,
    }
}

/// Whether one of the subscriptions takes messages of a kind.
pub open spec fn any_wants(subscriptions: Seq<Subscription>, kind: WsMessageType) -> bool {
    exists|i: int| 0 <= i < subscriptions.len() && wants(#[trigger] subscriptions[i].channel@, kind)
}

impl Subscription {
    /// Whether the subscription takes messages of a kind.
    pub fn wants(&self, kind: WsMessageType) -> (r: bool)
        ensures
            r == wants(self.channel@, kind),
    {
        match kind {
            WsMessageType::MarketData => true,
            WsMessageType::Anomaly => self.channel == String::from_str("anomalies") || self.channel
                == String::from_str("all"),
            WsMessageType::Alert => self.channel == String::from_str("alerts") || self.channel
                == String::from_str("all"),
            _ => false,
        }
    }
}

/// Whether a client with these subscriptions is sent a message of a kind.
pub fn should_deliver(subscriptions: &Vec<Subscription>, kind: WsMessageType) -> (r: bool)
    ensures
        r == any_wants(subscriptions@, kind),
{
    let mut i: usize = 0;
    while i < subscriptions.len()
        invariant
            i <= subscriptions@.len(),
            forall|j: int| 0 <= j < i ==> !wants(#[trigger] subscriptions@[j].channel@, kind),
        decreases subscriptions@.len() - i,
    {
        if subscriptions[i].wants(kind) {
            return true;
        }
        i = i + 1;
    }
    false
}

/// An answer of the control plane: the data asked for, or an error, and the
/// time of the answer in milliseconds since the Unix epoch.
#[derive(Debug)]
pub struct ApiResponse<T> {
    pub success: bool,
    pub data: Option<T>,
    pub error: Option<String>,
    pub timestamp: i64,
}

impl<T> ApiResponse<T> {
    /// An answer that carries data, given at `timestamp`.
    pub fn success_at(data: T, timestamp: i64) -> (r: Self)
        ensures
            r.success,
            r.data == Some(data),
            r.error is None,
            r.timestamp == timestamp,
    {
        ApiResponse { success: true, data: Some(data), error: None, timestamp }
    }

    /// An answer that carries an error, given at `timestamp`.
    pub fn error_at(error: String, timestamp: i64) -> (r: Self)
        ensures
            !r.success,
            r.data is None,
            r.error == Some(error),
            r.timestamp == timestamp,
    {
        ApiResponse { success: false, data: None, error: Some(error), timestamp }
    }

    /// An answer that carries data, given now.
    pub fn success(data: T) -> (r: Self)
        ensures
            r.success,
            r.data == Some(data),
            r.error is None,
    {
        Self::success_at(data, now_millis())
    }

    /// An answer that carries an error, given now.
    pub fn error(error: String) -> (r: Self)
        ensures
            !r.success,
            r.data is None,
            r.error == Some(error),
    {
        Self::error_at(error, now_millis())
    }
}

/// An error of the control plane: the status of the answer, and what went
/// wrong.
#[derive(Debug)]
pub struct ApiError {
    pub status: u16,
    pub message: String,
}

/// The status of an answer to a request that failed inside the monitor.
pub const INTERNAL_SERVER_ERROR: u16 = 500;

impl ApiError {
    /// The error of the control plane for an error of the monitor: an
    /// internal error, with the text of the monitor's error.
    pub fn from_error(err: &MonitorError) -> (e: Self)
        ensures
            e.status == INTERNAL_SERVER_ERROR,
            e.message@ == error_label(*err) + error_message(*err),
    {
        ApiError { status: INTERNAL_SERVER_ERROR, message: err.describe() }
    }
}

} // verus!
