use crypto_monitor::anomaly::{PriceAnomalyConfig, VolumeAnomalyConfig};
use crypto_monitor::event::{topic_for, AlertType, AnomalyType, EventSource, EventType, MarketDataType, SystemEventType, Topic, TradeEventType};
use crypto_monitor::key::{hash_key, slot_for, InstrumentKey, InstrumentKind, HASH_MODULUS};
use crypto_monitor::monitor::MonitorConfig;
use crypto_monitor::pipeline::{route, ExchangeStats, MarketEvent, MarketEventKind, Pipeline, Side};
use crypto_monitor::registry::DetectorRegistry;
use crypto_monitor::window::MAX_VALUE;

fn key(exchange: &str, base: &str, quote: &str, kind: InstrumentKind) -> InstrumentKey {
    InstrumentKey { exchange_id: exchange.to_string(), base: base.to_string(), quote: quote.to_string(), kind }
}

fn btc() -> InstrumentKey {
    key("binance", "btc", "usdt", InstrumentKind::Spot)
}

fn eager() -> MonitorConfig {
    MonitorConfig {
        volume: VolumeAnomalyConfig { z_score_threshold: 0, min_percentage_change: 0, window_size: 60, min_samples: 2 },
        price: PriceAnomalyConfig { percentage_threshold: 1_000_000, z_score_threshold: 1_000_000, window_size: 60, min_samples: 1 },
        min_samples: 1,
        dynamic_thresholds: false,
        ..MonitorConfig::default()
    }
}

fn trade(k: InstrumentKey, price: i64, quantity: i64, time: i64) -> MarketEvent {
    MarketEvent { instrument_key: k, exchange_time: time, ingest_time: time + 5, kind: MarketEventKind::Trade { price, quantity, side: Side::Buy } }
}

fn book(k: InstrumentKey, bid: i64, ask: i64, time: i64) -> MarketEvent {
    MarketEvent {
        instrument_key: k,
        exchange_time: time,
        ingest_time: time + 5,
        kind: MarketEventKind::BookTop { bid_price: bid, bid_quantity: 1, ask_price: ask, ask_quantity: 2 },
    }
}

#[test]
fn fingerprint_is_the_canonical_form() {
    assert_eq!(btc().fingerprint(), "binance:btc/usdt:spot");
    assert_eq!(key("okx", "eth", "usdt", InstrumentKind::Perpetual).fingerprint(), "okx:eth/usdt:perpetual");
    assert_eq!(key("", "", "", InstrumentKind::Other).fingerprint(), ":/:other");
    assert_eq!(btc().symbol(), "btc/usdt");
    assert_eq!(btc().clone().fingerprint(), btc().fingerprint());
}

#[test]
fn hash_of_a_fingerprint() {
    assert_eq!(hash_key(""), 14_695_981_039_346_656_037);
    assert_eq!(hash_key("binance:btc/usdt:spot"), 18_305_133_203_326_267_351);
    assert!(hash_key("anything at all") < HASH_MODULUS);
    assert_eq!(slot_for("binance:btc/usdt:spot", 8), 7);
    assert_eq!(slot_for("binance:btc/usdt:spot", 3), 1);
    assert_eq!(slot_for("okx:eth/usdt:perpetual", 8), 5);
    assert_eq!(slot_for("binance:btc/usdt:spot", 1), 0);
    assert_eq!(slot_for("binance:btc/usdt:spot", 0), 0);
}

#[test]
fn equal_fingerprints_share_a_partition() {
    // two keys that differ, with the same fingerprint
    let a = key("x", "a/b", "c", InstrumentKind::Spot);
    let b = key("x", "a", "b/c", InstrumentKind::Spot);
    assert_eq!(a.fingerprint(), b.fingerprint());
    for partitions in [1u64, 2, 3, 7, 16, 1000] {
        for topic in Topic::all() {
            let ra = route("monitor", partitions, &a, topic);
            let rb = route("monitor", partitions, &b, topic);
            assert_eq!(ra.partition, rb.partition);
            assert_eq!(ra.key, rb.key);
            assert_eq!(ra.topic_name, rb.topic_name);
            assert!(ra.partition < partitions);
        }
    }
    // and the same key always goes the same way
    assert_eq!(route("p", 16, &btc(), Topic::Anomalies).partition, route("p", 16, &btc(), Topic::Anomalies).partition);
}

#[test]
fn topic_names() {
    assert_eq!(Topic::MarketTrades.name("crypto"), "crypto.market.trades");
    assert_eq!(Topic::MarketBook.name("crypto"), "crypto.market.book");
    assert_eq!(Topic::Anomalies.name("crypto"), "crypto.anomalies");
    assert_eq!(Topic::Alerts.name("crypto"), "crypto.alerts");
    assert_eq!(Topic::Trades.name("crypto"), "crypto.trades");
    assert_eq!(Topic::Trades.name(""), ".trades");
    assert_eq!(Topic::all(), vec![Topic::MarketTrades, Topic::MarketBook, Topic::Anomalies, Topic::Alerts, Topic::Trades]);
}

#[test]
fn topic_of_each_kind_of_event() {
    let p = "m";
    assert_eq!(topic_for(EventType::MarketData(MarketDataType::Trade), p), Some("m.market.trades".to_string()));
    assert_eq!(topic_for(EventType::MarketData(MarketDataType::OrderBook), p), Some("m.market.book".to_string()));
    assert_eq!(topic_for(EventType::MarketData(MarketDataType::Candle), p), None);
    assert_eq!(topic_for(EventType::MarketData(MarketDataType::Volume), p), None);
    assert_eq!(topic_for(EventType::MarketData(MarketDataType::Liquidation), p), None);
    assert_eq!(topic_for(EventType::Anomaly(AnomalyType::PumpDump), p), Some("m.anomalies".to_string()));
    assert_eq!(topic_for(EventType::Alert(AlertType::Warning), p), Some("m.alerts".to_string()));
    assert_eq!(topic_for(EventType::Trade(TradeEventType::OrderFilled), p), Some("m.trades".to_string()));
    assert_eq!(topic_for(EventType::System(SystemEventType::Started), p), None);
    assert_eq!(Topic::for_event(EventType::Anomaly(AnomalyType::VolumeSpike)), Some(Topic::Anomalies));
}

#[test]
fn event_source_clones() {
    let s = EventSource::Exchange("okx".to_string());
    match s.clone() {
        EventSource::Exchange(name) => assert_eq!(name, "okx"),
        _ => panic!("another source"),
    }
    assert!(matches!(EventSource::Monitor.clone(), EventSource::Monitor));
}

#[test]
fn registry_makes_a_monitor_when_an_instrument_first_comes() {
    let mut r = DetectorRegistry::new(eager(), 4);
    assert!(!r.contains(&btc()));
    assert_eq!(r.stats(&btc()), None);
    assert!(r.observe_trade_with_id(&btc(), 100, 5, 0, 1).is_empty());
    assert!(r.contains(&btc()));
    let found = r.observe_trade_with_id(&btc(), 100, 6, 10, 2);
    assert_eq!(found.len(), 1);
    assert_eq!(found[0].symbol, "btc/usdt");
    assert_eq!(found[0].exchange, "binance");
    assert_eq!(r.stats(&btc()).unwrap().trade_count, 2);
    // other instruments have monitors of their own
    let eth = key("binance", "eth", "usdt", InstrumentKind::Spot);
    let perp = key("binance", "btc", "usdt", InstrumentKind::Perpetual);
    assert!(!r.contains(&eth));
    assert!(r.observe_trade_with_id(&eth, 100, 5, 11, 3).is_empty());
    assert!(r.observe_trade_with_id(&perp, 100, 5, 12, 3).is_empty());
    assert!(r.contains(&eth) && r.contains(&perp) && r.contains(&btc()));
    assert_eq!(r.stats(&eth).unwrap().trade_count, 1);
    assert_eq!(r.stats(&btc()).unwrap().trade_count, 2);
}

#[test]
fn registry_never_evicts() {
    let mut r = DetectorRegistry::new(MonitorConfig::default(), 3);
    let keys: Vec<InstrumentKey> = (0..50).map(|i| key("ex", &format!("c{}", i), "usdt", InstrumentKind::Spot)).collect();
    for round in 0..3 {
        for k in &keys {
            r.observe_trade_with_id(k, 100, 1, round, 1);
        }
    }
    for k in &keys {
        assert!(r.contains(k));
        assert_eq!(r.stats(k).unwrap().trade_count, 3);
    }
}

#[test]
fn registry_with_one_shard_works_alike() {
    let mut one = DetectorRegistry::new(eager(), 1);
    let mut many = DetectorRegistry::new(eager(), 16);
    for i in 0..40i64 {
        let k = key("ex", &format!("c{}", i % 5), "usdt", InstrumentKind::Spot);
        let a = one.observe_trade_with_id(&k, 100 + i, 1 + i, i * 900, 7);
        let b = many.observe_trade_with_id(&k, 100 + i, 1 + i, i * 900, 7);
        assert_eq!(a.len(), b.len());
        for (x, y) in a.iter().zip(b.iter()) {
            assert_eq!(x.description, y.description);
            assert_eq!(x.timestamp, y.timestamp);
            assert_eq!(x.metrics, y.metrics);
        }
    }
    for i in 0..5 {
        let k = key("ex", &format!("c{}", i), "usdt", InstrumentKind::Spot);
        assert_eq!(one.stats(&k), many.stats(&k));
        assert!(one.contains(&k));
    }
}

#[test]
fn registry_takes_book_tops_and_gives_random_identifiers() {
    let mut r = DetectorRegistry::new(eager(), 2);
    r.observe_book_top(&btc(), 99, 1, 101, 1);
    let s = r.stats(&btc()).unwrap();
    assert_eq!(s.book_count, 1);
    assert_eq!(s.last_bid, Some(99));
    assert_eq!(s.last_ask, Some(101));
    r.observe_trade(&btc(), 100, 5, 0);
    let found = r.observe_trade(&btc(), 100, 5, 1);
    assert_eq!(found.len(), 1);
    assert_eq!((found[0].id >> 76) & 0xF, 4);
}

#[test]
fn pipeline_routes_a_trade() {
    let mut p = Pipeline::new(eager(), 4, "crypto", 8);
    let out = p.process_with_id(&trade(btc(), 100, 5, 0), 1);
    assert!(out.accepted);
    assert!(out.anomalies.is_empty());
    assert!(out.anomaly_route.is_none());
    let raw = out.raw.unwrap();
    assert_eq!(raw.topic, Topic::MarketTrades);
    assert_eq!(raw.topic_name, "crypto.market.trades");
    assert_eq!(raw.key, "binance:btc/usdt:spot");
    assert_eq!(raw.partition, 7);
    // the second trade raises an alert, which goes to the anomalies under the same key
    let out = p.process_with_id(&trade(btc(), 100, 6, 10), 2);
    assert_eq!(out.anomalies.len(), 1);
    assert_eq!(out.anomalies[0].id, 2);
    let to = out.anomaly_route.unwrap();
    assert_eq!(to.topic, Topic::Anomalies);
    assert_eq!(to.topic_name, "crypto.anomalies");
    assert_eq!(to.key, "binance:btc/usdt:spot");
    assert_eq!(to.partition, 7);
    assert_eq!(p.rejected(), 0);
}

#[test]
fn pipeline_routes_a_book_top() {
    let mut p = Pipeline::new(eager(), 4, "crypto", 8);
    let out = p.process_with_id(&book(btc(), 99, 101, 0), 1);
    assert!(out.accepted);
    assert!(out.anomalies.is_empty());
    let raw = out.raw.unwrap();
    assert_eq!(raw.topic, Topic::MarketBook);
    assert_eq!(raw.topic_name, "crypto.market.book");
    assert_eq!(p.instrument_stats(&btc()).unwrap().book_count, 1);
}

#[test]
fn pipeline_turns_away_what_is_out_of_range() {
    let mut p = Pipeline::new(eager(), 4, "crypto", 8);
    for bad in [
        trade(btc(), MAX_VALUE + 1, 5, 0),
        trade(btc(), 100, i64::MIN, 0),
        book(btc(), i64::MAX, 101, 0),
        book(btc(), 99, -MAX_VALUE - 1, 0),
    ] {
        let out = p.process_with_id(&bad, 1);
        assert!(!out.accepted);
        assert!(out.raw.is_none());
        assert!(out.anomalies.is_empty());
        assert!(out.anomaly_route.is_none());
    }
    assert_eq!(p.rejected(), 4);
    // nothing was made for the instrument, nothing counted for the exchange
    assert_eq!(p.instrument_stats(&btc()), None);
    assert_eq!(p.exchange_stats(&"binance".to_string()), None);
    assert!(Pipeline::is_acceptable(&MarketEventKind::Trade { price: MAX_VALUE, quantity: -MAX_VALUE, side: Side::Sell }));
}

#[test]
fn pipeline_counts_for_each_exchange() {
    let mut p = Pipeline::new(eager(), 4, "crypto", 8);
    p.process_with_id(&trade(btc(), 100, 5, 1000), 1);
    p.process_with_id(&trade(key("binance", "eth", "usdt", InstrumentKind::Spot), 20, 7, 2000), 1);
    p.process_with_id(&book(btc(), 99, 101, 3000), 1);
    p.process_with_id(&trade(key("okx", "btc", "usdt", InstrumentKind::Spot), 101, 1, 2500), 1);
    let b = p.exchange_stats(&"binance".to_string()).unwrap();
    assert_eq!(
        b,
        ExchangeStats {
            trades_count: 2,
            orderbook_updates: 1,
            last_price: Some(20),
            last_bid: Some(99),
            last_ask: Some(101),
            total_volume: 12,
            first_update_time: Some(1000),
            last_update_time: Some(3000),
        }
    );
    let o = p.exchange_stats(&"okx".to_string()).unwrap();
    assert_eq!(o.trades_count, 1);
    assert_eq!(o.orderbook_updates, 0);
    assert_eq!(o.first_update_time, Some(2500));
    assert_eq!(p.exchange_stats(&"bybit".to_string()), None);
}

#[test]
fn exchange_stats_record() {
    let mut s = ExchangeStats::new();
    assert_eq!(s.trades_count, 0);
    assert_eq!(s.first_update_time, None);
    s.record(MarketEventKind::Trade { price: 10, quantity: 3, side: Side::Sell }, 7);
    s.record(MarketEventKind::BookTop { bid_price: 9, bid_quantity: 1, ask_price: 11, ask_quantity: 1 }, 5);
    assert_eq!(s.trades_count, 1);
    assert_eq!(s.orderbook_updates, 1);
    assert_eq!(s.last_price, Some(10));
    assert_eq!(s.total_volume, 3);
    assert_eq!(s.first_update_time, Some(7));
    assert_eq!(s.last_update_time, Some(5));
}

#[test]
fn pipeline_counts_failed_publications_and_goes_on() {
    let mut p = Pipeline::new(eager(), 4, "crypto", 8);
    p.process_with_id(&trade(btc(), 100, 5, 0), 1);
    p.record_publish_failure();
    p.record_publish_failure();
    assert_eq!(p.publish_failed(), 2);
    let out = p.process_with_id(&trade(btc(), 100, 6, 10), 2);
    assert!(out.accepted);
    assert_eq!(out.anomalies.len(), 1);
}

#[test]
fn pipeline_gives_random_identifiers() {
    let mut p = Pipeline::new(eager(), 4, "crypto", 8);
    p.process(&trade(btc(), 100, 5, 0));
    let out = p.process(&trade(btc(), 100, 6, 10));
    assert_eq!(out.anomalies.len(), 1);
    assert_eq!((out.anomalies[0].id >> 76) & 0xF, 4);
    assert!(out.anomaly_route.is_some());
    assert!(out.raw.is_some());
}

#[test]
fn alerts_of_an_instrument_leave_in_time_order() {
    let mut p = Pipeline::new(eager(), 4, "crypto", 8);
    let mut last: Option<i64> = None;
    let mut alerts = 0;
    let mut seed: u64 = 99;
    let mut t: i64 = 0;
    for i in 0..1500i64 {
        seed = seed.wrapping_mul(6364136223846793005).wrapping_add(1442695040888963407);
        t += ((seed >> 33) % 2000) as i64 - 500;
        let out = p.process_with_id(&trade(btc(), 100, 1 + (i % 50), t), i as u128);
        for a in &out.anomalies {
            if let Some(before) = last {
                assert!(a.timestamp >= before + 2000);
            }
            last = Some(a.timestamp);
            alerts += 1;
        }
    }
    assert!(alerts > 50);
}

#[test]
fn health_degrades_with_a_failed_publication() {
    let mut p = Pipeline::new(eager(), 4, "crypto", 8);
    assert_eq!(p.health(), crypto_monitor::pipeline::Health::Healthy);
    p.process_with_id(&trade(btc(), MAX_VALUE + 1, 5, 0), 1);
    assert_eq!(p.health(), crypto_monitor::pipeline::Health::Healthy);
    p.record_publish_failure();
    assert_eq!(p.health(), crypto_monitor::pipeline::Health::Degraded);
}

#[test]
fn event_builder_needs_a_source_and_a_kind() {
    let kind = EventType::MarketData(MarketDataType::Trade);
    assert!(crypto_monitor::event::EventBuilder::with_id_and_time(1, 2).build().is_none());
    assert!(crypto_monitor::event::EventBuilder::with_id_and_time(1, 2).with_source(EventSource::Monitor).build().is_none());
    assert!(crypto_monitor::event::EventBuilder::with_id_and_time(1, 2).with_type(kind).with_data(vec![1]).build().is_none());
    let e = crypto_monitor::event::EventBuilder::with_id_and_time(1, 2)
        .with_source(EventSource::Exchange("okx".to_string()))
        .with_type(kind)
        .with_data(b"{\"a\":1}".to_vec())
        .build()
        .unwrap();
    assert_eq!(e.id, 1);
    assert_eq!(e.timestamp, 2);
    assert!(matches!(e.source, EventSource::Exchange(ref name) if name == "okx"));
    assert_eq!(e.event_type, kind);
    assert_eq!(e.data, b"{\"a\":1}".to_vec());
}

#[test]
fn event_without_data_carries_null() {
    let e = crypto_monitor::event::EventBuilder::with_id_and_time(1, 2)
        .with_type(EventType::System(SystemEventType::Started))
        .with_source(EventSource::Monitor)
        .build()
        .unwrap();
    assert_eq!(e.data, b"null".to_vec());
}

#[test]
fn new_event_builder_stamps_identifier_and_time() {
    let e = crypto_monitor::event::EventBuilder::new()
        .with_source(EventSource::User)
        .with_type(EventType::Alert(AlertType::Info))
        .build()
        .unwrap();
    assert_eq!((e.id >> 76) & 0xF, 4);
    assert_eq!((e.id >> 62) & 0x3, 2);
    assert!(e.timestamp > 1_577_836_800_000);
}

#[test]
fn trade_event_of_an_exchange() {
    let e = crypto_monitor::event::trade_event("binance", 77, vec![1, 2, 3], 9);
    assert_eq!(e.id, 9);
    assert_eq!(e.timestamp, 77);
    assert!(matches!(e.source, EventSource::Exchange(ref name) if name == "binance"));
    assert_eq!(e.event_type, EventType::MarketData(MarketDataType::Trade));
    assert_eq!(e.data, vec![1, 2, 3]);
    assert_eq!(topic_for(e.event_type, "m"), Some("m.market.trades".to_string()));
}
