//! The errors of the monitor.

use vstd::prelude::*;
use vstd::string::*;

verus! {

/// What went wrong, with a message.
#[derive(Debug)]
pub enum MonitorError {
    Fluvio(String),
    Barter(String),
    Database(String),
    Serialization(String),
    Configuration(String),
    Stream(String),
    Other(String),
}

/// What each kind of error is called in its text.
pub open spec fn error_label(e: MonitorError) -> Seq<char> {
    match e {
        MonitorError::Fluvio(_) => "Fluvio error: "@,
        MonitorError::Barter(_) => "Barter error: "@,
        MonitorError::Database(_) => "Database error: "@,
        MonitorError::Serialization(_) => "Serialization error: "@,
        MonitorError::Configuration(_) => "Configuration error: "@,
        MonitorError::Stream(_) => "Stream error: "@,
        MonitorError::Other(_) => "Other error: "@,
    }
}

/// The message that an error carries.
pub open spec fn error_message(e: MonitorError) -> Seq<char> {
    match e {
        MonitorError::Fluvio(m) => m@,
        MonitorError::Barter(m) => m@,
        MonitorError::Database(m) => m@,
        MonitorError::Serialization(m) => m@,
        MonitorError::Configuration(m) => m@,
        MonitorError::Stream(m) => m@,
        MonitorError::Other(m) => m@,
    }
}

impl MonitorError {
    /// The message that the error carries.
    pub fn message(&self) -> (m: &String)
        ensures
            m@ == error_message(*self),
    {
        match self {
            MonitorError::Fluvio(m) => m,
            MonitorError::Barter(m) => m,
            MonitorError::Database(m) => m,
            MonitorError::Serialization(m) => m,
            MonitorError::Configuration(m) => m,
            MonitorError::Stream(m) => m,
            MonitorError::Other(m) => m,
        }
    }

    /// The text of the error: what kind it is, then its message.
    pub fn describe(&self) -> (s: String)
        ensures
            s@ == error_label(*self) + error_message(*self),
    {
        let mut s = match self {
            MonitorError::Fluvio(_) => String::from_str("Fluvio error: "),
            MonitorError::Barter(_) => String::from_str("Barter error: "),
            MonitorError::Database(_) => String::from_str("Database error: "),
            MonitorError::Serialization(_) => String::from_str("Serialization error: "),
            MonitorError::Configuration(_) => String::from_str("Configuration error: "),
            MonitorError::Stream(_) => String::from_str("Stream error: "),
            MonitorError::Other(_) => String::from_str("Other error: "),
        };
        s.append(self.message().as_str());
        s
    }
}

/// How the program ended.
#[derive(Clone, Copy, Debug, PartialEq, Eq, Structural)]
pub enum Outcome {
    CleanShutdown,
    ConfigError,
    BusUnreachable,
    SupervisorFatal,
}

/// The exit code of each way to end.
pub open spec fn exit_code_spec(outcome: Outcome) -> u8 {
    match outcome {
        Outcome::CleanShutdown => 0,
        Outcome::ConfigError => 2,
        Outcome::BusUnreachable => 3,
        Outcome::SupervisorFatal => 4,
    }
}

/// The exit code of a way to end.
pub fn exit_code(outcome: Outcome) -> (code: u8)
    ensures
        code == exit_code_spec(outcome),
{
    match outcome {
        Outcome::CleanShutdown => 0,
        Outcome::ConfigError => 2,
        Outcome::BusUnreachable => 3,
        Outcome::SupervisorFatal => 4,
    }
}

} // verus!
