//! The decisions of the trader: the signal that an anomaly gives, the state
//! of a position, and the statistics of closed trades.  Orders themselves
//! belong to the caller.

use crate::anomaly::{AnomalyDetection, AnomalyRecord, AnomalySeverity};
use crate::arith::{ratio, ratio_spec};
use crate::config::TradingConfig;
use crate::event::AnomalyType;
use crate::outside::{fresh_id, is_random_uuid};
use crate::window::in_range;
use vstd::prelude::*;
use vstd::string::*;

verus! {

/// What a signal says to do.
#[derive(Clone, Copy, Debug, PartialEq, Eq, Structural)]
pub enum SignalType {
    Buy,
    Sell,
    Hold,
}

/// How strong a signal is.
#[derive(Clone, Copy, Debug, PartialEq, Eq, Structural)]
pub enum SignalStrength {
    Weak,
    Medium,
    Strong,
}

/// The side of a position.
#[derive(Clone, Copy, Debug, PartialEq, Eq, Structural)]
pub enum PositionSide {
    Long,
    Short,
}

/// The side of an order.
#[derive(Clone, Copy, Debug, PartialEq, Eq, Structural)]
pub enum OrderSide {
    Buy,
    Sell,
}

/// A signal to trade, raised by an anomaly.
#[derive(Debug)]
pub struct TradingSignal {
    pub id: u128,
    pub timestamp: i64,
    pub symbol: String,
    pub exchange: String,
    pub signal_type: SignalType,
    pub strength: SignalStrength,
    pub price: i64,
    pub reason: String,
    pub anomaly_id: Option<u128>,
}

/// A signal as a mathematical value.
pub struct Signal {
    pub id: u128,
    pub timestamp: i64,
    pub symbol: Seq<char>,
    pub exchange: Seq<char>,
    pub signal_type: SignalType,
    pub strength: SignalStrength,
    pub price: i64,
    pub reason: Seq<char>,
    pub anomaly_id: Option<u128>,
}

impl View for TradingSignal {
    type V = Signal;

    open spec fn view(&self) -> Signal {
        Signal {
            id: self.id,
            timestamp: self.timestamp,
            symbol: self.symbol@,
            exchange: self.exchange@,
            signal_type: self.signal_type,
            strength: self.strength,
            price: self.price,
            reason: self.reason@,
            anomaly_id: self.anomaly_id,
        }
    }
}

/// What an anomaly says to do, and how strongly: a critical volume spike is
/// a strong reason to buy, a high one a medium reason; a price that fell by
/// more than 5% is a medium reason to buy, one that rose by more than 10% a
/// medium reason to sell; nothing else is a reason.
pub open spec fn verdict(a: AnomalyRecord) -> Option<(SignalType, SignalStrength)> {
    match a.anomaly_type {
        AnomalyType::VolumeSpike => match a.severity {
            AnomalySeverity::Critical => Some((SignalType::Buy, SignalStrength::Strong)),
            AnomalySeverity::High => Some((SignalType::Buy, SignalStrength::Medium)),
            _ => None,
        },
        AnomalyType::PriceSpike => match a.metrics.percentage_change {
            Some(pct) => if pct < -500 {
                Some((SignalType::Buy, SignalStrength::Medium))
            } else if pct > 1000 {
                Some((SignalType::Sell, SignalStrength::Medium))
            } else {
                None
            },
            None => None,
        },
        _ => None,
    }
}

/// The signal that an anomaly gives under a configuration, under an
/// identifier: none where trading is switched off or the anomaly is no
/// reason to trade.
pub open spec fn signal_for(config: TradingConfig, a: AnomalyRecord, id: u128) -> Option<Signal> {
    if !config.auto_trading_enabled {
        None
    } else {
        match verdict(a) {
            Some((signal_type, strength)) => Some(
                Signal {
                    id,
                    timestamp: a.timestamp,
                    symbol: a.symbol,
                    exchange: a.exchange,
                    signal_type,
                    strength,
                    price: a.metrics.current_value,
                    reason: "Anomaly detected: "@ + a.description,
                    anomaly_id: Some(a.id),
                },
            ),
            None => None,
        }
    }
}

/// Whether the signal found is the signal due.
pub open spec fn signals(found: Option<TradingSignal>, due: Option<Signal>) -> bool {
    match (found, due) {
        (Some(s), Some(e)) => s@ == e,
        (None, None) => true,
        _ => false,
    }
}

/// Turns anomalies into signals.
#[derive(Debug)]
pub struct AnomalyBasedStrategy {
    config: TradingConfig,
}

impl AnomalyBasedStrategy {
    /// The configuration in force.
    pub closed spec fn config(&self) -> TradingConfig {
        self.config
    }

    /// A strategy under a configuration.
    pub fn new(config: TradingConfig) -> (s: Self)
        ensures
            s.config() == config,
    {
        AnomalyBasedStrategy { config }
    }

    /// The signal that an anomaly gives, under the identifier `id`.
    pub fn analyze_with_id(&self, anomaly: &AnomalyDetection, id: u128) -> (r: Option<TradingSignal>)
        ensures
            signals(r, signal_for(self.config(), anomaly@, id)),
    {
        if !self.config.auto_trading_enabled {
            return None;
        }
        let (signal_type, strength) = match anomaly.anomaly_type {
            AnomalyType::VolumeSpike => match anomaly.severity {
                AnomalySeverity::Critical => (SignalType::Buy, SignalStrength::Strong),
                AnomalySeverity::High => (SignalType::Buy, SignalStrength::Medium),
                _ => {
                    return None;
                },
            },
            AnomalyType::PriceSpike => match anomaly.metrics.percentage_change {
                Some(pct) => if pct < -500 {
                    (SignalType::Buy, SignalStrength::Medium)
                } else if pct > 1000 {
                    (SignalType::Sell, SignalStrength::Medium)
                } else {
                    return None;
                },
                None => {
                    return None;
                },
            },
            _ => {
                return None;
            },
        };
        let mut reason = String::from_str("Anomaly detected: ");
        reason.append(anomaly.description.as_str());
        Some(
            TradingSignal {
                id,
                timestamp: anomaly.timestamp,
                symbol: anomaly.symbol.clone(),
                exchange: anomaly.exchange.clone(),
                signal_type,
                strength,
                price: anomaly.metrics.current_value,
                reason,
                anomaly_id: Some(anomaly.id),
            },
        )
    }
}

/// What turns anomalies into signals.
pub trait TradingStrategy {
    /// The signal that an anomaly gives, if it gives one.
    fn analyze(&mut self, anomaly: &AnomalyDetection) -> (r: Option<TradingSignal>);

    /// Puts another configuration in force.
    fn update_config(&mut self, config: TradingConfig);
}

impl TradingStrategy for AnomalyBasedStrategy {
    /// The signal that an anomaly gives, under a new random identifier.
    fn analyze(&mut self, anomaly: &AnomalyDetection) -> (r: Option<TradingSignal>)
        ensures
            final(self).config() == old(self).config(),
            match r {
                Some(s) => signals(r, signal_for(old(self).config(), anomaly@, s.id)) && is_random_uuid(
                    s.id,
                ),
                None => signal_for(old(self).config(), anomaly@, 0) is None,
            },
    {
        match self.analyze_with_id(anomaly, 0) {
            Some(s) => {
                let id = fresh_id();
                Some(
                    TradingSignal {
                        id,
                        timestamp: s.timestamp,
                        symbol: s.symbol,
                        exchange: s.exchange,
                        signal_type: s.signal_type,
                        strength: s.strength,
                        price: s.price,
                        reason: s.reason,
                        anomaly_id: s.anomaly_id,
                    },
                )
            },
            None => None,
        }
    }

    /// Puts another configuration in force.
    fn update_config(&mut self, config: TradingConfig)
        ensures
            final(self).config() == config,
    {
        self.config = config;
    }
}

/// The order and the position that a signal opens; none for a signal to
/// hold.
pub open spec fn opening(signal_type: SignalType) -> Option<(OrderSide, PositionSide)> {
    match signal_type {
        SignalType::Buy => Some((OrderSide::Buy, PositionSide::Long)),
        SignalType::Sell => Some((OrderSide::Sell, PositionSide::Short)),
        SignalType::Hold => None,
    }
}

/// The order that closes a position.
pub open spec fn closing(side: PositionSide) -> OrderSide {
    match side {
        PositionSide::Long => OrderSide::Sell,
        PositionSide::Short => OrderSide::Buy,
    }
}

/// The order and the position that a signal opens.
pub fn opening_sides(signal_type: SignalType) -> (r: Option<(OrderSide, PositionSide)>)
    ensures
        r == opening(signal_type),
{
    match signal_type {
        SignalType::Buy => Some((OrderSide::Buy, PositionSide::Long)),
        SignalType::Sell => Some((OrderSide::Sell, PositionSide::Short)),
        SignalType::Hold => None,
    }
}

/// The order that closes a position.
pub fn closing_side(side: PositionSide) -> (r: OrderSide)
    ensures
        r == closing(side),
{
    match side {
        PositionSide::Long => OrderSide::Sell,
        PositionSide::Short => OrderSide::Buy,
    }
}

/// An open position.  Prices are in ticks, the quantity in its own unit,
/// and the gains in ticks times that unit.
#[derive(Clone, Copy, Debug, PartialEq, Eq, Structural)]
pub struct Position {
    pub id: u128,
    pub side: PositionSide,
    pub quantity: i64,
    pub entry_price: i64,
    pub current_price: i64,
    pub unrealized_pnl: i128,
    pub realized_pnl: i128,
    pub stop_loss: Option<i64>,
    pub take_profit: Option<i64>,
    pub opened_at: i64,
    pub closed_at: Option<i64>,
}

/// The gain of a position at a price, not yet realized: for a long position
/// the rise of the price times the quantity, for a short one the fall.
pub open spec fn gain_at(p: Position, price: i64) -> int {
    match p.side {
        PositionSide::Long => (price - p.entry_price) * p.quantity,
        PositionSide::Short => (p.entry_price - price) * p.quantity,
    }
}

/// Whether the price has reached the stop loss.
pub open spec fn stop_loss_reached(p: Position) -> bool {
    match p.stop_loss {
        Some(stop) => match p.side {
            PositionSide::Long => p.current_price <= stop,
            PositionSide::Short => p.current_price >= stop,
        },
        None => false,
    }
}

/// Whether the price has reached the take profit.
pub open spec fn take_profit_reached(p: Position) -> bool {
    match p.take_profit {
        Some(target) => match p.side {
            PositionSide::Long => p.current_price >= target,
            PositionSide::Short => p.current_price <= target,
        },
        None => false,
    }
}

proof fn lemma_gain_fits(a: int, b: int, q: int)
    by (nonlinear_arith)
    requires
        -0x8000_0000_0000_0000 <= a <= 0x7FFF_FFFF_FFFF_FFFF,
        -0x8000_0000_0000_0000 <= b <= 0x7FFF_FFFF_FFFF_FFFF,
        -0x8000_0000_0000_0000 <= q <= 0x7FFF_FFFF_FFFF_FFFF,
    ensures
        -0xFFFF_FFFF_FFFF_FFFF * 0x8000_0000_0000_0000 <= (a - b) * q <= 0xFFFF_FFFF_FFFF_FFFF
            * 0x8000_0000_0000_0000,
{
}

impl Position {
    /// Takes a new price and reckons the gain at it.
    pub fn update_price(&mut self, price: i64)
        ensures
            *final(self) == (Position {
                current_price: price,
                unrealized_pnl: gain_at(*old(self), price) as i128,
                ..*old(self)
            }),
    {
        self.current_price = price;
        proof {
            lemma_gain_fits(price as int, self.entry_price as int, self.quantity as int);
            lemma_gain_fits(self.entry_price as int, price as int, self.quantity as int);
        }
        self.unrealized_pnl = match self.side {
            PositionSide::Long => (price as i128 - self.entry_price as i128) * (self.quantity as i128),
            PositionSide::Short => (self.entry_price as i128 - price as i128) * (
            self.quantity as i128),
        };
    }

    /// Whether the price has reached the stop loss.
    pub fn should_stop_loss(&self) -> (r: bool)
        ensures
            r == stop_loss_reached(*self),
    {
        match self.stop_loss {
            Some(stop) => match self.side {
                PositionSide::Long => self.current_price <= stop,
                PositionSide::Short => self.current_price >= stop,
            },
            None => false,
        }
    }

    /// Whether the price has reached the take profit.
    pub fn should_take_profit(&self) -> (r: bool)
        ensures
            r == take_profit_reached(*self),
    {
        match self.take_profit {
            Some(target) => match self.side {
                PositionSide::Long => self.current_price >= target,
                PositionSide::Short => self.current_price <= target,
            },
            None => false,
        }
    }
}

/// What to do with a position after a price: close it where the stop loss
/// is reached, or else where the take profit is; otherwise keep it.
#[derive(Clone, Copy, Debug, PartialEq, Eq, Structural)]
pub enum PositionAction {
    Keep,
    CloseAtStopLoss,
    CloseAtTakeProfit,
}

/// What to do with a position.
pub open spec fn position_action(p: Position) -> PositionAction {
    if stop_loss_reached(p) {
        PositionAction::CloseAtStopLoss
    } else if take_profit_reached(p) {
        PositionAction::CloseAtTakeProfit
    } else {
        PositionAction::Keep
    }
}

/// Takes a new price for a position and says what to do with it.
pub fn update_position(position: &mut Position, price: i64) -> (a: PositionAction)
    ensures
        *final(position) == (Position {
            current_price: price,
            unrealized_pnl: gain_at(*old(position), price) as i128,
            ..*old(position)
        }),
        a == position_action(*final(position)),
{
    position.update_price(price);
    if position.should_stop_loss() {
        PositionAction::CloseAtStopLoss
    } else if position.should_take_profit() {
        PositionAction::CloseAtTakeProfit
    } else {
        PositionAction::Keep
    }
}

/// The price a share below or above another, in hundredths of a percent,
/// cut toward zero.
pub open spec fn shifted(price: i64, share: int) -> int {
    let scaled = price * (10_000 + share);
    if scaled < 0 {
        -((-scaled) / 10_000)
    } else {
        scaled / 10_000
    }
}

/// Where the stop loss of a position entered at a price lies: below it for
/// a long position, above it for a short one.
pub open spec fn stop_loss_at(config: TradingConfig, entry_price: i64, side: PositionSide) -> int {
    match side {
        PositionSide::Long => shifted(entry_price, -config.stop_loss_percentage),
        PositionSide::Short => shifted(entry_price, config.stop_loss_percentage as int),
    }
}

/// Where the take profit of a position entered at a price lies: above it
/// for a long position, below it for a short one.
pub open spec fn take_profit_at(config: TradingConfig, entry_price: i64, side: PositionSide) -> int {
    match side {
        PositionSide::Long => shifted(entry_price, config.take_profit_percentage as int),
        PositionSide::Short => shifted(entry_price, -config.take_profit_percentage),
    }
}

/// The largest share, in hundredths of a percent, by which stops and
/// targets may lie from the entry.
pub const MAX_SHARE: i64 = 1_000_000;

/// Sets stops and targets by fixed shares of the entry price.
#[derive(Debug)]
pub struct SimpleRiskManager {
    config: TradingConfig,
}

proof fn lemma_shift_fits(price: int, factor: int)
    by (nonlinear_arith)
    requires
        -0x4000_0000_0000 <= price <= 0x4000_0000_0000,
        -1_010_000 <= factor <= 1_010_000,
    ensures
        -0x4000_0000_0000 * 1_010_000 <= price * factor <= 0x4000_0000_0000 * 1_010_000,
{
}

impl SimpleRiskManager {
    /// The configuration in force.
    pub closed spec fn config(&self) -> TradingConfig {
        self.config
    }

    /// A risk manager under a configuration.
    pub fn new(config: TradingConfig) -> (m: Self)
        ensures
            m.config() == config,
    {
        SimpleRiskManager { config }
    }

    fn shift(price: i64, share: i64) -> (r: i64)
        requires
            in_range(price),
            -MAX_SHARE <= share <= MAX_SHARE,
        ensures
            r == shifted(price, share as int),
    {
        proof {
            lemma_shift_fits(price as int, 10_000 + share as int);
        }
        let scaled: i128 = (price as i128) * (10_000 + share as i128);
        if scaled < 0 {
            -(((-scaled) / 10_000) as i64)
        } else {
            (scaled / 10_000) as i64
        }
    }

    /// Where the stop loss of a position entered at a price lies.
    pub fn get_stop_loss(&self, entry_price: i64, side: PositionSide) -> (r: i64)
        requires
            in_range(entry_price),
            0 <= self.config().stop_loss_percentage <= MAX_SHARE,
        ensures
            r == stop_loss_at(self.config(), entry_price, side),
    {
        match side {
            PositionSide::Long => Self::shift(entry_price, -self.config.stop_loss_percentage),
            PositionSide::Short => Self::shift(entry_price, self.config.stop_loss_percentage),
        }
    }

    /// Where the take profit of a position entered at a price lies.
    pub fn get_take_profit(&self, entry_price: i64, side: PositionSide) -> (r: i64)
        requires
            in_range(entry_price),
            0 <= self.config().take_profit_percentage <= MAX_SHARE,
        ensures
            r == take_profit_at(self.config(), entry_price, side),
    {
        match side {
            PositionSide::Long => Self::shift(entry_price, self.config.take_profit_percentage),
            PositionSide::Short => Self::shift(entry_price, -self.config.take_profit_percentage),
        }
    }
}

/// The statistics of closed trades.  The win rate is in hundredths of a
/// percent.
#[derive(Clone, Copy, Debug, PartialEq, Eq, Structural)]
pub struct TradingStats {
    pub total_trades: u64,
    pub winning_trades: u64,
    pub losing_trades: u64,
    pub win_rate: i64,
    pub total_pnl: i128,
}

impl Default for TradingStats {
    fn default() -> (s: Self)
        ensures
            s == (TradingStats {
                total_trades: 0,
                winning_trades: 0,
                losing_trades: 0,
                win_rate: 0,
                total_pnl: 0,
            }),
    {
        TradingStats { total_trades: 0, winning_trades: 0, losing_trades: 0, win_rate: 0, total_pnl: 0 }
    }
}

/// The largest size that the total gain is let reach.
pub const TOTAL_PNL_CAP: i128 = 0x2000_0000_0000_0000_0000_0000_0000_0000;

/// A total raised by one gain, held to `TOTAL_PNL_CAP` in size.
pub open spec fn pnl_after(total: i128, pnl: i128) -> i128 {
    let t = total + pnl;
    if t > TOTAL_PNL_CAP {
        TOTAL_PNL_CAP
    } else if t < -TOTAL_PNL_CAP {
        (-TOTAL_PNL_CAP) as i128
    } else {
        t as i128
    }
}

/// The statistics after a trade closed with a gain: the trade is counted as
/// won if the gain is above 0 and as lost otherwise, and the win rate is the
/// share of won trades.  Statistics that count as many trades as can be
/// counted stay as they are.
pub open spec fn stats_with(s: TradingStats, pnl: i128) -> TradingStats {
    if s.total_trades == u64::MAX || s.winning_trades == u64::MAX || s.losing_trades == u64::MAX {
        s
    } else {
        let won = if pnl > 0 {
            (s.winning_trades + 1) as u64
        } else {
            s.winning_trades
        };
        TradingStats {
            total_trades: (s.total_trades + 1) as u64,
            winning_trades: won,
            losing_trades: if pnl > 0 {
                s.losing_trades
            } else {
                (s.losing_trades + 1) as u64
            },
            win_rate: ratio_spec(won as int, s.total_trades + 1, 10_000) as i64,
            total_pnl: pnl_after(s.total_pnl, pnl),
        }
    }
}

impl TradingStats {
    /// Whether the total gain is within its bounds.
    pub open spec fn wf(self) -> bool {
        -TOTAL_PNL_CAP <= self.total_pnl <= TOTAL_PNL_CAP
    }

    /// Counts a trade that closed with a gain.
    pub fn update_stats(&mut self, pnl: i128)
        requires
            old(self).wf(),
            -TOTAL_PNL_CAP <= pnl <= TOTAL_PNL_CAP,
        ensures
            final(self).wf(),
            *final(self) == stats_with(*old(self), pnl),
    {
        if self.total_trades == u64::MAX || self.winning_trades == u64::MAX || self.losing_trades
            == u64::MAX {
            return ;
        }
        self.total_trades = self.total_trades + 1;
        let t: i128 = self.total_pnl + pnl;
        self.total_pnl = if t > TOTAL_PNL_CAP {
            TOTAL_PNL_CAP
        } else if t < -TOTAL_PNL_CAP {
            -TOTAL_PNL_CAP
        } else {
            t
        };
        if pnl > 0 {
            self.winning_trades = self.winning_trades + 1;
        } else {
            self.losing_trades = self.losing_trades + 1;
        }
        self.win_rate = ratio(self.winning_trades as i128, self.total_trades as i128, 10_000);
    }
}

} // verus!
