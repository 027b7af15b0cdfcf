//! The configuration of the whole monitor, and the rules that it must meet.

use crate::error::MonitorError;
use crate::monitor::MonitorConfig as DetectionConfig;
use crate::supervisor::BackoffPolicy;
use vstd::prelude::*;
use vstd::string::*;

verus! {

/// One exchange to watch.
#[derive(Debug)]
pub struct ExchangeConfig {
    pub name: String,
    pub enabled: bool,
    pub symbols: Vec<String>,
    pub subscriptions: Vec<String>,
}

/// One stream to ask an exchange for: a symbol on a channel.
#[derive(Debug)]
pub struct StreamRequest {
    pub symbol: String,
    pub channel: String,
}

/// The streams to ask an exchange for: every symbol on every channel, symbol
/// by symbol.
pub open spec fn subscription_set_spec(symbols: Seq<String>, channels: Seq<String>) -> Seq<
    (Seq<char>, Seq<char>),
> {
    Seq::new(
        symbols.len() * channels.len(),
        |i: int| (symbols[i / channels.len() as int]@, channels[i % channels.len() as int]@),
    )
}

/// The requests as mathematical values.
pub open spec fn requests_view(requests: Seq<StreamRequest>) -> Seq<(Seq<char>, Seq<char>)> {
    Seq::new(requests.len(), |i: int| (requests[i].symbol@, requests[i].channel@))
}

impl ExchangeConfig {
    /// The streams to ask the exchange for: every symbol on every channel.
    pub fn subscription_set(&self) -> (r: Vec<StreamRequest>)
        ensures
            requests_view(r@) == subscription_set_spec(self.symbols@, self.subscriptions@),
    {
        let ghost due = subscription_set_spec(self.symbols@, self.subscriptions@);
        let mut out: Vec<StreamRequest> = Vec::new();
        let channels = self.subscriptions.len();
        let mut i: usize = 0;
        while i < self.symbols.len()
            invariant
                i <= self.symbols@.len(),
                channels == self.subscriptions@.len(),
                due == subscription_set_spec(self.symbols@, self.subscriptions@),
                out@.len() == i * channels,
                forall|k: int| 0 <= k < out@.len() ==> #[trigger] requests_view(out@)[k] == due[k],
            decreases self.symbols@.len() - i,
        {
            let mut j: usize = 0;
            while j < channels
                invariant
                    i < self.symbols@.len(),
                    j <= channels,
                    channels == self.subscriptions@.len(),
                    due == subscription_set_spec(self.symbols@, self.subscriptions@),
                    out@.len() == i * channels + j,
                    forall|k: int|
                        0 <= k < out@.len() ==> #[trigger] requests_view(out@)[k] == due[k],
                decreases channels - j,
            {
                proof {
                    lemma_cell(i as int, j as int, channels as int, self.symbols@.len() as int);
                }
                let ghost was = out@;
                out.push(
                    StreamRequest {
                        symbol: self.symbols[i].clone(),
                        channel: self.subscriptions[j].clone(),
                    },
                );
                proof {
                    assert forall|k: int| 0 <= k < out@.len() implies #[trigger] requests_view(
                        out@,
                    )[k] == due[k] by {
                        if k < was.len() {
                            assert(requests_view(was)[k] == due[k]);
                        }
                    }
                }
                j = j + 1;
            }
            proof {
                assert((i + 1) * channels == i * channels + channels) by (nonlinear_arith);
            }
            i = i + 1;
        }
        out
    }
}

proof fn lemma_cell(i: int, j: int, channels: int, symbols: int)
    by (nonlinear_arith)
    requires
        0 <= i < symbols,
        0 <= j < channels,
    ensures
        (i * channels + j) / channels == i,
        (i * channels + j) % channels == j,
        i * channels + j < symbols * channels,
{
}

/// Where the bus is, and how its topics are made.
#[derive(Debug)]
pub struct FluvioConfig {
    pub endpoint: String,
    pub topic_prefix: String,
    pub partitions: u32,
    pub replication_factor: u32,
}

/// Where the database is.
#[derive(Debug)]
pub struct DatabaseConfig {
    pub url: String,
    pub max_connections: u32,
    pub min_connections: u32,
}

/// Which notifications are sent.
#[derive(Clone, Copy, Debug, PartialEq, Eq, Structural)]
pub struct AlertConfig {
    pub telegram_enabled: bool,
    pub wechat_enabled: bool,
    pub email_enabled: bool,
    pub sms_enabled: bool,
}

/// How anomalies are looked for: the volume multiplier (in thousandths), the
/// price change that is reported (in hundredths of a percent), how far back
/// to look, and the number of samples below which nothing is reported.
#[derive(Clone, Copy, Debug, PartialEq, Eq, Structural)]
pub struct AnomalyConfig {
    pub volume_threshold_multiplier: i64,
    pub price_change_percentage: i64,
    pub lookback_window_minutes: u32,
    pub min_samples: usize,
}

/// How trading is done: the largest position (in ticks), and the share of
/// the portfolio at risk, the stop loss and the take profit (in hundredths of
/// a percent).
#[derive(Clone, Copy, Debug, PartialEq, Eq, Structural)]
pub struct TradingConfig {
    pub auto_trading_enabled: bool,
    pub max_position_size: i64,
    pub risk_percentage: i64,
    pub stop_loss_percentage: i64,
    pub take_profit_percentage: i64,
}

/// What is monitored and what follows from it.
#[derive(Clone, Copy, Debug, PartialEq, Eq, Structural)]
pub struct MonitoringConfig {
    pub anomaly_detection: AnomalyConfig,
    pub alerting: AlertConfig,
    pub trading: TradingConfig,
}

/// The configuration of the whole monitor.
#[derive(Debug)]
pub struct MonitorConfig {
    pub exchanges: Vec<ExchangeConfig>,
    pub fluvio: FluvioConfig,
    pub database: DatabaseConfig,
    pub monitoring: MonitoringConfig,
    pub detection: DetectionConfig,
    pub backoff: BackoffPolicy,
}

/// How the program runs.  Times are in milliseconds since the Unix epoch.
#[derive(Clone, Copy, Debug, PartialEq, Eq, Structural)]
pub struct RuntimeConfig {
    pub debug_mode: bool,
    pub dry_run: bool,
    pub backtest_mode: bool,
    pub start_time: Option<i64>,
    pub end_time: Option<i64>,
}

impl Default for RuntimeConfig {
    fn default() -> (c: Self)
        ensures
            c == (RuntimeConfig {
                debug_mode: false,
                dry_run: false,
                backtest_mode: false,
                start_time: None,
                end_time: None,
            }),
    {
        RuntimeConfig {
            debug_mode: false,
            dry_run: false,
            backtest_mode: false,
            start_time: None,
            end_time: None,
        }
    }
}

/// The rules of a configuration, in the order in which they are checked.
#[derive(Clone, Copy, Debug, PartialEq, Eq, Structural)]
pub enum ConfigFault {
    NoExchanges,
    NoDatabaseUrl,
    NoBusEndpoint,
    NoPartitions,
    BadDetection,
    BadBackoff,
}

/// Whether the backoff can be used: its factor is at least 1, its first
/// wait no longer than its longest, and its jitter at most the whole.
pub open spec fn backoff_ok(p: BackoffPolicy) -> bool {
    p.factor >= 1 && p.base_ms <= p.cap_ms && p.jitter_permille <= 1000
}

/// The first rule that a configuration breaks, if it breaks any.
pub open spec fn first_fault(config: &MonitorConfig) -> Option<ConfigFault> {
    if config.exchanges@.len() == 0 {
        Some(ConfigFault::NoExchanges)
    } else if config.database.url@.len() == 0 {
        Some(ConfigFault::NoDatabaseUrl)
    } else if config.fluvio.endpoint@.len() == 0 {
        Some(ConfigFault::NoBusEndpoint)
    } else if config.fluvio.partitions == 0 {
        Some(ConfigFault::NoPartitions)
    } else if !config.detection.wf() {
        Some(ConfigFault::BadDetection)
    } else if !backoff_ok(config.backoff) {
        Some(ConfigFault::BadBackoff)
    } else {
        None
    }
}

/// What is said of a broken rule.
pub open spec fn fault_text(fault: ConfigFault) -> Seq<char> {
    match fault {
        ConfigFault::NoExchanges => "No exchanges configured"@,
        ConfigFault::NoDatabaseUrl => "Database URL not configured"@,
        ConfigFault::NoBusEndpoint => "Fluvio endpoint not configured"@,
        ConfigFault::NoPartitions => "Fluvio partitions must be at least 1"@,
        ConfigFault::BadDetection => "Detection configuration out of bounds"@,
        ConfigFault::BadBackoff => "Backoff configuration out of bounds"@,
    }
}

impl ConfigFault {
    /// What is said of the broken rule.
    pub fn text(self) -> (s: String)
        ensures
            s@ == fault_text(self),
    {
        match self {
            ConfigFault::NoExchanges => String::from_str("No exchanges configured"),
            ConfigFault::NoDatabaseUrl => String::from_str("Database URL not configured"),
            ConfigFault::NoBusEndpoint => String::from_str("Fluvio endpoint not configured"),
            ConfigFault::NoPartitions => String::from_str("Fluvio partitions must be at least 1"),
            ConfigFault::BadDetection => String::from_str("Detection configuration out of bounds"),
            ConfigFault::BadBackoff => String::from_str("Backoff configuration out of bounds"),
        }
    }
}

/// Holds a configuration and checks it.
#[derive(Debug)]
pub struct ConfigManager {
    monitor_config: MonitorConfig,
}

/// Whether the exchange at each place is switched on.
pub open spec fn enabled_flags(exchanges: Seq<ExchangeConfig>) -> Seq<bool> {
    Seq::new(exchanges.len(), |i: int| exchanges[i].enabled)
}

/// The places of the values that are true, in rising order.
pub open spec fn places_of_true(flags: Seq<bool>) -> Seq<usize>
    decreases flags.len(),
{
    if flags.len() == 0 {
        Seq::empty()
    } else if flags.last() {
        places_of_true(flags.drop_last()).push((flags.len() - 1) as usize)
    } else {
        places_of_true(flags.drop_last())
    }
}

impl MonitorConfig {
    /// The places of the exchanges that are switched on, for each of which a
    /// stream is started.
    pub fn enabled_exchanges(&self) -> (r: Vec<usize>)
        ensures
            r@ == places_of_true(enabled_flags(self.exchanges@)),
    {
        let ghost flags = enabled_flags(self.exchanges@);
        let mut out: Vec<usize> = Vec::new();
        let mut i: usize = 0;
        while i < self.exchanges.len()
            invariant
                i <= self.exchanges@.len(),
                flags == enabled_flags(self.exchanges@),
                out@ == places_of_true(flags.subrange(0, i as int)),
            decreases self.exchanges@.len() - i,
        {
            proof {
                assert(flags.subrange(0, i + 1).drop_last() =~= flags.subrange(0, i as int));
            }
            if self.exchanges[i].enabled {
                out.push(i);
            }
            i = i + 1;
        }
        assert(flags.subrange(0, flags.len() as int) =~= flags);
        out
    }
}

impl ConfigManager {
    /// The configuration held.
    pub closed spec fn config(&self) -> &MonitorConfig {
        &self.monitor_config
    }

    /// A manager of the given configuration.
    pub fn from_config(monitor_config: MonitorConfig) -> (m: Self)
        ensures
            *m.config() == monitor_config,
    {
        ConfigManager { monitor_config }
    }

    /// The configuration held.
    pub fn get_config(&self) -> (c: &MonitorConfig)
        ensures
            c == self.config(),
    {
        &self.monitor_config
    }

    /// The first rule that the configuration breaks, if it breaks any.
    pub fn check(&self) -> (r: Option<ConfigFault>)
        ensures
            r == first_fault(self.config()),
    {
        let c = &self.monitor_config;
        if c.exchanges.len() == 0 {
            Some(ConfigFault::NoExchanges)
        } else if c.database.url.as_str().unicode_len() == 0 {
            Some(ConfigFault::NoDatabaseUrl)
        } else if c.fluvio.endpoint.as_str().unicode_len() == 0 {
            Some(ConfigFault::NoBusEndpoint)
        } else if c.fluvio.partitions == 0 {
            Some(ConfigFault::NoPartitions)
        } else if !c.detection.is_valid() {
            Some(ConfigFault::BadDetection)
        } else if !(c.backoff.factor >= 1 && c.backoff.base_ms <= c.backoff.cap_ms
            && c.backoff.jitter_permille <= 1000) {
            Some(ConfigFault::BadBackoff)
        } else {
            None
        }
    }

    /// Checks the configuration: it is accepted if it breaks no rule; else
    /// the error names the first rule that it breaks.
    pub fn validate(&self) -> (r: Result<(), MonitorError>)
        ensures
            match first_fault(self.config()) {
                None => r is Ok,
                Some(fault) => r matches Err(MonitorError::Configuration(m)) && m@ == fault_text(
                    fault,
                ),
            },
    {
        match self.check() {
            None => Ok(()),
            Some(fault) => Err(MonitorError::Configuration(fault.text())),
        }
    }
}

} // verus!
