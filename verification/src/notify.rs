//! Notifications: what is told of an anomaly, and to which channels.

use crate::anomaly::{AnomalyDetection, AnomalyRecord, AnomalySeverity};
use crate::error::MonitorError;
use crate::event::{AlertType, AnomalyType};
use crate::outside::{format_utc, fresh_id, is_random_uuid, utc_text};
use crate::text::decimal;
use vstd::prelude::*;
use vstd::string::*;

verus! {

/// The channels over which notifications go.
#[derive(Clone, Copy, Debug, PartialEq, Eq, Structural)]
pub enum ChannelType {
    Telegram,
    WeChat,
    Email,
    SMS,
}

/// How Telegram is reached.
#[derive(Debug)]
pub struct TelegramConfig {
    pub enabled: bool,
    pub bot_token: String,
    pub chat_ids: Vec<String>,
    pub send_images: bool,
}

/// How WeChat is reached.
#[derive(Debug)]
pub struct WeChatConfig {
    pub enabled: bool,
    pub corp_id: String,
    pub agent_id: String,
    pub secret: String,
    pub to_user: Vec<String>,
}

/// How mail is sent.
#[derive(Debug)]
pub struct EmailConfig {
    pub enabled: bool,
    pub smtp_host: String,
    pub smtp_port: u16,
    pub username: String,
    pub password: String,
    pub from_address: String,
    pub to_addresses: Vec<String>,
    pub use_tls: bool,
}

/// Who sends short messages, and with what credentials.
#[derive(Debug)]
pub enum SmsProvider {
    Twilio { account_sid: String, auth_token: String },
    Aliyun {
        access_key_id: String,
        access_key_secret: String,
        sign_name: String,
        template_code: String,
    },
}

/// How short messages are sent.
#[derive(Debug)]
pub struct SmsConfig {
    pub enabled: bool,
    pub provider: SmsProvider,
    pub from_number: String,
    pub to_numbers: Vec<String>,
}

/// How every channel is reached.
#[derive(Debug)]
pub struct NotificationConfig {
    pub telegram: TelegramConfig,
    pub wechat: WeChatConfig,
    pub email: EmailConfig,
    pub sms: SmsConfig,
}

/// Whether a channel is in use: it is switched on and has someone to reach.
pub open spec fn channel_enabled(config: &NotificationConfig, channel: ChannelType) -> bool {
    match channel {
        ChannelType::Telegram => config.telegram.enabled && config.telegram.chat_ids@.len() > 0,
        ChannelType::WeChat => config.wechat.enabled && config.wechat.to_user@.len() > 0,
        ChannelType::Email => config.email.enabled && config.email.to_addresses@.len() > 0,
        ChannelType::SMS => config.sms.enabled && config.sms.to_numbers@.len() > 0,
    }
}

/// The name of a channel.
pub open spec fn channel_name(channel: ChannelType) -> Seq<char> {
    match channel {
        ChannelType::Telegram => "Telegram"@,
        ChannelType::WeChat => "WeChat"@,
        ChannelType::Email => "Email"@,
        ChannelType::SMS => "SMS"@,
    }
}

/// The channel if it is in use.
pub open spec fn if_enabled(config: &NotificationConfig, channel: ChannelType) -> Seq<ChannelType> {
    if channel_enabled(config, channel) {
        seq![channel]
    } else {
        Seq::empty()
    }
}

/// The channels in use, in the order Telegram, WeChat, mail, short
/// message.
pub open spec fn enabled_channels_spec(config: &NotificationConfig) -> Seq<ChannelType> {
    if_enabled(config, ChannelType::Telegram) + if_enabled(config, ChannelType::WeChat)
        + if_enabled(config, ChannelType::Email) + if_enabled(config, ChannelType::SMS)
}

/// The channel of a name, if there is one.
pub open spec fn channel_named(name: Seq<char>) -> Option<ChannelType> {
    if name == "Telegram"@ {
        Some(ChannelType::Telegram)
    } else if name == "WeChat"@ {
        Some(ChannelType::WeChat)
    } else if name == "Email"@ {
        Some(ChannelType::Email)
    } else if name == "SMS"@ {
        Some(ChannelType::SMS)
    } else {
        None
    }
}

/// What is said where a channel cannot be used.
pub open spec fn unavailable_text(name: Seq<char>) -> Seq<char> {
    "Channel "@ + name + " not found or disabled"@
}

impl ChannelType {
    /// The name of the channel.
    pub fn name(self) -> (s: &'static str)
        ensures
            s@ == channel_name(self),
    {
        match self {
            ChannelType::Telegram => "Telegram",
            ChannelType::WeChat => "WeChat",
            ChannelType::Email => "Email",
            ChannelType::SMS => "SMS",
        }
    }

    /// The channel of a name, if there is one.
    pub fn from_name(name: &str) -> (c: Option<ChannelType>)
        ensures
            c == channel_named(name@),
    {
        let name = String::from_str(name);
        if name == String::from_str("Telegram") {
            Some(ChannelType::Telegram)
        } else if name == String::from_str("WeChat") {
            Some(ChannelType::WeChat)
        } else if name == String::from_str("Email") {
            Some(ChannelType::Email)
        } else if name == String::from_str("SMS") {
            Some(ChannelType::SMS)
        } else {
            None
        }
    }
}

impl NotificationConfig {
    /// Whether a channel is in use.
    pub fn is_enabled(&self, channel: ChannelType) -> (r: bool)
        ensures
            r == channel_enabled(self, channel),
    {
        match channel {
            ChannelType::Telegram => self.telegram.enabled && self.telegram.chat_ids.len() > 0,
            ChannelType::WeChat => self.wechat.enabled && self.wechat.to_user.len() > 0,
            ChannelType::Email => self.email.enabled && self.email.to_addresses.len() > 0,
            ChannelType::SMS => self.sms.enabled && self.sms.to_numbers.len() > 0,
        }
    }

    /// The channels in use, to each of which a notification goes.
    pub fn get_enabled_channels(&self) -> (r: Vec<ChannelType>)
        ensures
            r@ == enabled_channels_spec(self),
    {
        let mut r: Vec<ChannelType> = Vec::new();
        if self.is_enabled(ChannelType::Telegram) {
            r.push(ChannelType::Telegram);
        }
        if self.is_enabled(ChannelType::WeChat) {
            r.push(ChannelType::WeChat);
        }
        if self.is_enabled(ChannelType::Email) {
            r.push(ChannelType::Email);
        }
        if self.is_enabled(ChannelType::SMS) {
            r.push(ChannelType::SMS);
        }
        r
    }

    /// The channel of a name, to which alone a notification goes: it must
    /// exist and be in use.
    pub fn send_to_channel(&self, channel_name: &str) -> (r: Result<ChannelType, MonitorError>)
        ensures
            match channel_named(channel_name@) {
                Some(c) => if channel_enabled(self, c) {
                    r == Ok::<ChannelType, MonitorError>(c)
                } else {
                    r matches Err(MonitorError::Other(m)) && m@ == unavailable_text(channel_name@)
                },
                None => r matches Err(MonitorError::Other(m)) && m@ == unavailable_text(
                    channel_name@,
                ),
            },
    {
        match ChannelType::from_name(channel_name) {
            Some(c) => if self.is_enabled(c) {
                return Ok(c);
            },
            None => {},
        }
        let mut m = String::from_str("Channel ");
        m.append(channel_name);
        m.append(" not found or disabled");
        Err(MonitorError::Other(m))
    }
}

/// How urgent the alert for an anomaly is: critical for a critical anomaly,
/// a warning for a high one, information for any other.
pub open spec fn alert_for(severity: AnomalySeverity) -> AlertType {
    match severity {
        AnomalySeverity::Critical => AlertType::Critical,
        AnomalySeverity::High => AlertType::Warning,
        _ => AlertType::Info,
    }
}

/// The name of a kind of anomaly.
pub open spec fn anomaly_name(kind: AnomalyType) -> Seq<char> {
    match kind {
        AnomalyType::VolumeSpike => "VolumeSpike"@,
        AnomalyType::PriceSpike => "PriceSpike"@,
        AnomalyType::DepthImbalance => "DepthImbalance"@,
        AnomalyType::LargeOrder => "LargeOrder"@,
        AnomalyType::UnusualActivity => "UnusualActivity"@,
        AnomalyType::FlashCrash => "FlashCrash"@,
        AnomalyType::PumpDump => "PumpDump"@,
    }
}

/// The title of the notification of an anomaly.
pub open spec fn title_for(a: AnomalyRecord) -> Seq<char> {
    anomaly_name(a.anomaly_type) + " detected on "@ + a.exchange + "/"@ + a.symbol
}

/// What is told of an anomaly.
#[derive(Debug)]
pub struct Notification {
    pub id: u128,
    pub timestamp: i64,
    pub alert_type: AlertType,
    pub title: String,
    pub message: String,
}

/// A notification as a mathematical value.
pub struct Notice {
    pub id: u128,
    pub timestamp: i64,
    pub alert_type: AlertType,
    pub title: Seq<char>,
    pub message: Seq<char>,
}

impl View for Notification {
    type V = Notice;

    open spec fn view(&self) -> Notice {
        Notice {
            id: self.id,
            timestamp: self.timestamp,
            alert_type: self.alert_type,
            title: self.title@,
            message: self.message@,
        }
    }
}

/// The notification of an anomaly, under an identifier: it carries the
/// anomaly's time and description.
pub open spec fn notice_of(a: AnomalyRecord, id: u128) -> Notice {
    Notice {
        id,
        timestamp: a.timestamp,
        alert_type: alert_for(a.severity),
        title: title_for(a),
        message: a.description,
    }
}

impl Notification {
    /// The notification of an anomaly, under the identifier `id`.
    pub fn from_anomaly_with_id(anomaly: &AnomalyDetection, id: u128) -> (n: Self)
        ensures
            n@ == notice_of(anomaly@, id),
    {
        let alert_type = match anomaly.severity {
            AnomalySeverity::Critical => AlertType::Critical,
            AnomalySeverity::High => AlertType::Warning,
            _ => AlertType::Info,
        };
        let mut title = match anomaly.anomaly_type {
            AnomalyType::VolumeSpike => String::from_str("VolumeSpike"),
            AnomalyType::PriceSpike => String::from_str("PriceSpike"),
            AnomalyType::DepthImbalance => String::from_str("DepthImbalance"),
            AnomalyType::LargeOrder => String::from_str("LargeOrder"),
            AnomalyType::UnusualActivity => String::from_str("UnusualActivity"),
            AnomalyType::FlashCrash => String::from_str("FlashCrash"),
            AnomalyType::PumpDump => String::from_str("PumpDump"),
        };
        title.append(" detected on ");
        title.append(anomaly.exchange.as_str());
        title.append("/");
        title.append(anomaly.symbol.as_str());
        Notification {
            id,
            timestamp: anomaly.timestamp,
            alert_type,
            title,
            message: anomaly.description.clone(),
        }
    }

    /// The notification of an anomaly, under a new random identifier.
    pub fn from_anomaly(anomaly: &AnomalyDetection) -> (n: Self)
        ensures
            n@ == notice_of(anomaly@, n.id),
            is_random_uuid(n.id),
    {
        Self::from_anomaly_with_id(anomaly, fresh_id())
    }
}

/// The sign that opens the text of a notification.
pub open spec fn alert_sign(alert_type: AlertType) -> Seq<char> {
    match alert_type {
        AlertType::Critical => "\u{1F6A8}"@,
        AlertType::Warning => "\u{26A0}\u{FE0F}"@,
        AlertType::Info => "\u{2139}\u{FE0F}"@,
    }
}

/// The text of a notification, given the text of its time: the sign, the
/// title in asterisks, the message, and the time.
pub open spec fn notification_text(n: Notice, time: Seq<char>) -> Seq<char> {
    alert_sign(n.alert_type) + " *"@ + n.title + "*\n\n"@ + n.message + "\n\n_Time: "@ + time
        + "_"@
}

/// The text of the time of a notification: as `chrono` writes it, or the
/// number of milliseconds where `chrono` cannot hold the time.
pub open spec fn time_text(written: Option<Seq<char>>, millis: i64) -> Seq<char> {
    match written {
        Some(text) => text,
        None => decimal(millis as int),
    }
}

/// The text of a notification, given the text of its time.
pub fn compose_notification_message(notification: &Notification, time: &str) -> (s: String)
    ensures
        s@ == notification_text(notification@, time@),
{
    let mut s = match notification.alert_type {
        AlertType::Critical => String::from_str("\u{1F6A8}"),
        AlertType::Warning => String::from_str("\u{26A0}\u{FE0F}"),
        AlertType::Info => String::from_str("\u{2139}\u{FE0F}"),
    };
    s.append(" *");
    s.append(notification.title.as_str());
    s.append("*\n\n");
    s.append(notification.message.as_str());
    s.append("\n\n_Time: ");
    s.append(time);
    s.append("_");
    s
}

/// The text of a notification.
pub fn format_notification_message(notification: &Notification) -> (s: String)
    ensures
        s@ == notification_text(
            notification@,
            time_text(utc_text(notification.timestamp), notification.timestamp),
        ),
{
    let time = match format_utc(notification.timestamp) {
        Some(text) => text,
        None => crate::text::decimal_string(notification.timestamp),
    };
    compose_notification_message(notification, time.as_str())
}

} // verus!
