use crypto_monitor::anomaly::{AnomalyDetection, AnomalyMetrics, AnomalySeverity};
use crypto_monitor::api::{client_action, should_deliver, ClientAction, Subscription, WsMessageType};
use crypto_monitor::error::MonitorError;
use crypto_monitor::event::{AlertType, AnomalyType};
use crypto_monitor::notify::{
    compose_notification_message, format_notification_message, ChannelType, EmailConfig,
    Notification, NotificationConfig, SmsConfig, SmsProvider, TelegramConfig, WeChatConfig,
};

fn anomaly(kind: AnomalyType, severity: AnomalySeverity) -> AnomalyDetection {
    AnomalyDetection {
        id: 5,
        timestamp: 947_638_923_004,
        symbol: "BTC/USDT".to_string(),
        exchange: "Binance".to_string(),
        anomaly_type: kind,
        severity,
        metrics: AnomalyMetrics {
            current_value: 1,
            expected_value: 2,
            deviation: -1,
            z_score: None,
            percentage_change: None,
            historical_avg: None,
            historical_std: None,
        },
        description: "something happened".to_string(),
    }
}

fn config(telegram: bool, wechat: bool, email: bool, sms: bool) -> NotificationConfig {
    NotificationConfig {
        telegram: TelegramConfig { enabled: telegram, bot_token: "t".to_string(), chat_ids: vec!["1".to_string()], send_images: false },
        wechat: WeChatConfig { enabled: wechat, corp_id: "c".to_string(), agent_id: "a".to_string(), secret: "s".to_string(), to_user: vec!["u".to_string()] },
        email: EmailConfig {
            enabled: email,
            smtp_host: "h".to_string(),
            smtp_port: 25,
            username: "u".to_string(),
            password: "p".to_string(),
            from_address: "a@b".to_string(),
            to_addresses: vec!["c@d".to_string()],
            use_tls: true,
        },
        sms: SmsConfig {
            enabled: sms,
            provider: SmsProvider::Twilio { account_sid: "sid".to_string(), auth_token: "tok".to_string() },
            from_number: "1".to_string(),
            to_numbers: vec!["2".to_string()],
        },
    }
}

#[test]
fn notification_of_an_anomaly() {
    let n = Notification::from_anomaly_with_id(&anomaly(AnomalyType::VolumeSpike, AnomalySeverity::Critical), 9);
    assert_eq!(n.id, 9);
    assert_eq!(n.timestamp, 947_638_923_004);
    assert_eq!(n.alert_type, AlertType::Critical);
    assert_eq!(n.title, "VolumeSpike detected on Binance/BTC/USDT");
    assert_eq!(n.message, "something happened");
}

#[test]
fn alert_follows_the_severity() {
    let cases = [
        (AnomalySeverity::Critical, AlertType::Critical),
        (AnomalySeverity::High, AlertType::Warning),
        (AnomalySeverity::Medium, AlertType::Info),
        (AnomalySeverity::Low, AlertType::Info),
    ];
    for (severity, alert) in cases {
        assert_eq!(Notification::from_anomaly_with_id(&anomaly(AnomalyType::PriceSpike, severity), 1).alert_type, alert);
    }
}

#[test]
fn title_names_the_kind() {
    let kinds = [
        (AnomalyType::VolumeSpike, "VolumeSpike"),
        (AnomalyType::PriceSpike, "PriceSpike"),
        (AnomalyType::DepthImbalance, "DepthImbalance"),
        (AnomalyType::LargeOrder, "LargeOrder"),
        (AnomalyType::UnusualActivity, "UnusualActivity"),
        (AnomalyType::FlashCrash, "FlashCrash"),
        (AnomalyType::PumpDump, "PumpDump"),
    ];
    for (kind, name) in kinds {
        let n = Notification::from_anomaly_with_id(&anomaly(kind, AnomalySeverity::Low), 1);
        assert_eq!(n.title, format!("{} detected on Binance/BTC/USDT", name));
    }
}

#[test]
fn notification_gets_a_random_identifier() {
    let a = Notification::from_anomaly(&anomaly(AnomalyType::PriceSpike, AnomalySeverity::High));
    let b = Notification::from_anomaly(&anomaly(AnomalyType::PriceSpike, AnomalySeverity::High));
    assert_ne!(a.id, b.id);
    assert_eq!((a.id >> 76) & 0xF, 4);
    assert_eq!(a.alert_type, AlertType::Warning);
}

#[test]
fn text_of_a_notification() {
    let n = Notification::from_anomaly_with_id(&anomaly(AnomalyType::VolumeSpike, AnomalySeverity::Critical), 9);
    assert_eq!(
        compose_notification_message(&n, "noon"),
        "\u{1F6A8} *VolumeSpike detected on Binance/BTC/USDT*\n\nsomething happened\n\n_Time: noon_"
    );
    let n = Notification::from_anomaly_with_id(&anomaly(AnomalyType::VolumeSpike, AnomalySeverity::High), 9);
    assert!(compose_notification_message(&n, "noon").starts_with("\u{26A0}\u{FE0F} *"));
    let n = Notification::from_anomaly_with_id(&anomaly(AnomalyType::VolumeSpike, AnomalySeverity::Low), 9);
    assert!(compose_notification_message(&n, "noon").starts_with("\u{2139}\u{FE0F} *"));
}

#[test]
fn text_of_a_notification_writes_the_time() {
    let n = Notification::from_anomaly_with_id(&anomaly(AnomalyType::VolumeSpike, AnomalySeverity::Critical), 9);
    assert_eq!(
        format_notification_message(&n),
        "\u{1F6A8} *VolumeSpike detected on Binance/BTC/USDT*\n\nsomething happened\n\n_Time: 2000-01-12 01:02:03 UTC_"
    );
    let mut early = Notification::from_anomaly_with_id(&anomaly(AnomalyType::VolumeSpike, AnomalySeverity::Critical), 9);
    early.timestamp = 0;
    assert!(format_notification_message(&early).ends_with("_Time: 1970-01-01 00:00:00 UTC_"));
    early.timestamp = -1;
    assert!(format_notification_message(&early).ends_with("_Time: 1969-12-31 23:59:59 UTC_"));
}

#[test]
fn time_that_cannot_be_written_is_given_in_milliseconds() {
    let mut n = Notification::from_anomaly_with_id(&anomaly(AnomalyType::VolumeSpike, AnomalySeverity::Critical), 9);
    n.timestamp = i64::MAX;
    assert!(format_notification_message(&n).ends_with("_Time: 9223372036854775807_"));
    n.timestamp = i64::MIN;
    assert!(format_notification_message(&n).ends_with("_Time: -9223372036854775808_"));
}

#[test]
fn channels_in_use() {
    assert_eq!(config(true, true, true, true).get_enabled_channels(), vec![ChannelType::Telegram, ChannelType::WeChat, ChannelType::Email, ChannelType::SMS]);
    assert_eq!(config(false, true, false, true).get_enabled_channels(), vec![ChannelType::WeChat, ChannelType::SMS]);
    assert!(config(false, false, false, false).get_enabled_channels().is_empty());
    // a channel with no one to reach is not in use
    let mut c = config(true, true, true, true);
    c.telegram.chat_ids.clear();
    c.email.to_addresses.clear();
    assert_eq!(c.get_enabled_channels(), vec![ChannelType::WeChat, ChannelType::SMS]);
    assert!(!c.is_enabled(ChannelType::Telegram));
    assert!(c.is_enabled(ChannelType::WeChat));
    c.wechat.to_user.clear();
    c.sms.to_numbers.clear();
    assert!(c.get_enabled_channels().is_empty());
}

#[test]
fn channel_by_name() {
    let c = config(true, false, true, true);
    assert_eq!(c.send_to_channel("Telegram").unwrap(), ChannelType::Telegram);
    assert_eq!(c.send_to_channel("Email").unwrap(), ChannelType::Email);
    assert_eq!(c.send_to_channel("SMS").unwrap(), ChannelType::SMS);
    match c.send_to_channel("WeChat") {
        Err(MonitorError::Other(m)) => assert_eq!(m, "Channel WeChat not found or disabled"),
        other => panic!("{:?}", other),
    }
    match c.send_to_channel("Pigeon") {
        Err(MonitorError::Other(m)) => assert_eq!(m, "Channel Pigeon not found or disabled"),
        other => panic!("{:?}", other),
    }
    assert!(c.send_to_channel("telegram").is_err());
    assert_eq!(ChannelType::SMS.name(), "SMS");
    assert_eq!(ChannelType::WeChat.name(), "WeChat");
    assert_eq!(ChannelType::from_name("Email"), Some(ChannelType::Email));
    assert_eq!(ChannelType::from_name(""), None);
}

fn subscription(channel: &str) -> Subscription {
    Subscription { channel: channel.to_string(), symbols: vec![], exchanges: vec![] }
}

#[test]
fn messages_of_clients() {
    assert_eq!(client_action(WsMessageType::Subscribe), ClientAction::AddSubscription);
    assert_eq!(client_action(WsMessageType::Unsubscribe), ClientAction::RemoveSubscription);
    assert_eq!(client_action(WsMessageType::Heartbeat), ClientAction::EchoHeartbeat);
    for kind in [WsMessageType::MarketData, WsMessageType::Anomaly, WsMessageType::Alert, WsMessageType::Trade] {
        assert_eq!(client_action(kind), ClientAction::Ignore);
    }
}

#[test]
fn subscriptions_choose_what_is_delivered() {
    let anomalies = vec![subscription("anomalies")];
    let alerts = vec![subscription("trades"), subscription("alerts")];
    let all = vec![subscription("all")];
    let none: Vec<Subscription> = vec![];
    assert!(should_deliver(&anomalies, WsMessageType::Anomaly));
    assert!(!should_deliver(&anomalies, WsMessageType::Alert));
    assert!(should_deliver(&alerts, WsMessageType::Alert));
    assert!(!should_deliver(&alerts, WsMessageType::Anomaly));
    assert!(should_deliver(&all, WsMessageType::Anomaly));
    assert!(should_deliver(&all, WsMessageType::Alert));
    assert!(should_deliver(&alerts, WsMessageType::MarketData));
    assert!(!should_deliver(&none, WsMessageType::MarketData));
    assert!(!should_deliver(&all, WsMessageType::Trade));
    assert!(!should_deliver(&all, WsMessageType::Heartbeat));
    assert!(subscription("all").wants(WsMessageType::Alert));
    assert!(!subscription("ALL").wants(WsMessageType::Alert));
}

#[test]
fn answers_of_the_control_plane() {
    let ok = crypto_monitor::api::ApiResponse::success_at("OK".to_string(), 5);
    assert!(ok.success);
    assert_eq!(ok.data, Some("OK".to_string()));
    assert_eq!(ok.error, None);
    assert_eq!(ok.timestamp, 5);
    let bad = crypto_monitor::api::ApiResponse::<u8>::error_at("no".to_string(), 6);
    assert!(!bad.success);
    assert_eq!(bad.data, None);
    assert_eq!(bad.error, Some("no".to_string()));
    let now = crypto_monitor::api::ApiResponse::success(1u8);
    assert_eq!(now.data, Some(1));
    assert!(now.timestamp > 1_577_836_800_000);
    let failed = crypto_monitor::api::ApiResponse::<u8>::error("why".to_string());
    assert_eq!(failed.error, Some("why".to_string()));
    assert!(failed.timestamp > 1_577_836_800_000);
}

#[test]
fn errors_of_the_control_plane() {
    let e = crypto_monitor::api::ApiError::from_error(&MonitorError::Stream("lost".to_string()));
    assert_eq!(e.status, 500);
    assert_eq!(e.message, "Stream error: lost");
}
