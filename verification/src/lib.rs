//! Real-time anomaly detection for market data, with every rule proved.
//!
//! Prices and quantities are fixed-point: an `i64` number of ticks whose
//! worth the caller picks.  Z-scores are in thousandths, percentages in
//! hundredths of a percent, and times in milliseconds since the Unix epoch.
//! Every decision is an exact function of the samples seen; where a number
//! is cut to an integer, the contract says how.
//!
//! The library decides and computes; it does no I/O.  Streams, timers, locks
//! and the bus belong to the caller, who feeds events in and carries actions
//! out.

pub mod analyzer;
pub mod anomaly;
pub mod api;
pub mod arith;
pub mod assoc;
pub mod bus;
pub mod composite;
pub mod config;
pub mod detector;
pub mod error;
pub mod event;
pub mod key;
pub mod manager;
pub mod metrics;
pub mod monitor;
pub mod notify;
pub mod outside;
pub mod pattern;
pub mod pipeline;
pub mod profile;
pub mod registry;
pub mod stats;
pub mod supervisor;
pub mod text;
pub mod trader;
pub mod window;
