use crypto_monitor::bus::{
    create_outcome, BoundedQueue, CreateOutcome, RetryDecision, RetryPolicy, TopicSetup,
    DEFAULT_QUEUE_CAPACITY, DEFAULT_SEND_ATTEMPTS,
};
use crypto_monitor::event::Topic;
use crypto_monitor::supervisor::{
    classify_error, BackoffPolicy, ErrorClass, Phase, StreamErrorKind, SupervisorAction,
    SupervisorEvent, ExchangeStreamSupervisor,
};

fn policy() -> BackoffPolicy {
    BackoffPolicy::default()
}

#[test]
fn backoff_defaults() {
    assert_eq!(policy(), BackoffPolicy { base_ms: 500, factor: 2, cap_ms: 30_000, jitter_permille: 200 });
}

#[test]
fn backoff_doubles_up_to_the_cap() {
    let p = policy();
    let expected = [500u64, 1000, 2000, 4000, 8000, 16_000, 30_000, 30_000];
    for (attempt, wait) in expected.iter().enumerate() {
        assert_eq!(p.raw(attempt as u32), *wait, "attempt {}", attempt);
    }
    assert_eq!(p.raw(1000), 30_000);
    assert_eq!(p.raw(u32::MAX), 30_000);
}

#[test]
fn backoff_jitter_is_a_fifth_either_way() {
    let p = policy();
    assert_eq!(p.delay(0, 0), 400);
    assert_eq!(p.delay(0, 500), 500);
    assert_eq!(p.delay(0, 1000), 600);
    assert_eq!(p.delay(0, 250), 450);
    assert_eq!(p.delay(3, 0), 3200);
    assert_eq!(p.delay(3, 1000), 4800);
    // a draw beyond 1000 counts as 1000
    assert_eq!(p.delay(0, u64::MAX), 600);
    // the cap holds after the jitter too
    assert_eq!(p.delay(6, 1000), 30_000);
    assert_eq!(p.delay(6, 0), 24_000);
    for attempt in 0..40 {
        for draw in [0u64, 1, 499, 500, 999, 1000] {
            assert!(p.delay(attempt, draw) <= 30_000);
        }
    }
}

#[test]
fn backoff_edge_policies() {
    let flat = BackoffPolicy { base_ms: 700, factor: 1, cap_ms: 10_000, jitter_permille: 0 };
    assert_eq!(flat.raw(0), 700);
    assert_eq!(flat.raw(50), 700);
    assert_eq!(flat.delay(50, 123), 700);
    let none = BackoffPolicy { base_ms: 0, factor: 3, cap_ms: 10_000, jitter_permille: 200 };
    assert_eq!(none.delay(9, 1000), 0);
    let over = BackoffPolicy { base_ms: 50_000, factor: 2, cap_ms: 10_000, jitter_permille: 5000 };
    assert_eq!(over.raw(0), 10_000);
    assert_eq!(over.delay(0, 0), 0);
    assert_eq!(over.delay(0, 1000), 10_000);
    let once = BackoffPolicy { base_ms: 500, factor: 0, cap_ms: 10_000, jitter_permille: 0 };
    assert_eq!(once.raw(0), 500);
    assert_eq!(once.raw(1), 0);
    assert_eq!(once.raw(7), 0);
    let huge = BackoffPolicy { base_ms: u64::MAX, factor: u64::MAX, cap_ms: u64::MAX, jitter_permille: 1000 };
    assert_eq!(huge.raw(3), u64::MAX);
    assert_eq!(huge.delay(3, 1000), u64::MAX);
}

#[test]
fn errors_are_classified() {
    assert_eq!(classify_error(StreamErrorKind::Transport, "connection reset by peer"), ErrorClass::Transport);
    assert_eq!(classify_error(StreamErrorKind::Transport, "unexpected pong"), ErrorClass::ProtocolNoise);
    assert_eq!(classify_error(StreamErrorKind::Transport, "Ping(\"1\")"), ErrorClass::Transport);
    assert_eq!(classify_error(StreamErrorKind::Transport, "ping timeout"), ErrorClass::ProtocolNoise);
    assert_eq!(classify_error(StreamErrorKind::Decode, "no subscription_id in message"), ErrorClass::ProtocolNoise);
    assert_eq!(classify_error(StreamErrorKind::Decode, "missing field price"), ErrorClass::Decode);
    assert_eq!(classify_error(StreamErrorKind::Config, "unknown instrument"), ErrorClass::FatalConfig);
    assert_eq!(classify_error(StreamErrorKind::Config, "pong"), ErrorClass::FatalConfig);
    assert_eq!(classify_error(StreamErrorKind::Decode, ""), ErrorClass::Decode);
}

fn started() -> ExchangeStreamSupervisor {
    let mut s = ExchangeStreamSupervisor::new();
    assert_eq!(s.phase, Phase::Idle);
    assert_eq!(s.step(&policy(), SupervisorEvent::Start, 500), SupervisorAction::Connect);
    assert_eq!(s.phase, Phase::Connecting);
    assert_eq!(s.step(&policy(), SupervisorEvent::Connected, 500), SupervisorAction::Subscribe);
    assert_eq!(s.phase, Phase::Subscribing);
    assert_eq!(s.step(&policy(), SupervisorEvent::Subscribed, 500), SupervisorAction::Nothing);
    assert_eq!(s.phase, Phase::Streaming);
    s
}

#[test]
fn lost_stream_is_announced_once_and_resumed() {
    let p = policy();
    let mut s = started();
    for _ in 0..10 {
        assert_eq!(s.step(&p, SupervisorEvent::Item, 500), SupervisorAction::Forward);
    }
    assert_eq!(s.items, 10);
    // the transport dies: one announcement, and a wait within the cap
    let a = s.step(&p, SupervisorEvent::Closed, 500);
    assert_eq!(a, SupervisorAction::AnnounceAndWait(500));
    assert_eq!(s.phase, Phase::Backoff);
    assert!(s.reconnecting);
    // what comes while waiting changes nothing
    assert_eq!(s.step(&p, SupervisorEvent::Closed, 500), SupervisorAction::Nothing);
    assert_eq!(s.step(&p, SupervisorEvent::Item, 500), SupervisorAction::Discard);
    assert_eq!(s.step(&p, SupervisorEvent::TimerFired, 500), SupervisorAction::Connect);
    // the connection fails again: a longer wait, and no second announcement
    assert_eq!(s.step(&p, SupervisorEvent::Failure(ErrorClass::Transport), 500), SupervisorAction::Wait(1000));
    assert_eq!(s.step(&p, SupervisorEvent::TimerFired, 500), SupervisorAction::Connect);
    assert_eq!(s.step(&p, SupervisorEvent::Connected, 500), SupervisorAction::Subscribe);
    assert_eq!(s.step(&p, SupervisorEvent::Closed, 500), SupervisorAction::Wait(2000));
    assert_eq!(s.step(&p, SupervisorEvent::TimerFired, 500), SupervisorAction::Connect);
    assert_eq!(s.step(&p, SupervisorEvent::Connected, 500), SupervisorAction::Subscribe);
    assert_eq!(s.step(&p, SupervisorEvent::Subscribed, 500), SupervisorAction::Nothing);
    // items flow again, and the count of failures starts anew
    assert_eq!(s.phase, Phase::Streaming);
    assert!(!s.reconnecting);
    assert_eq!(s.attempt, 0);
    assert_eq!(s.step(&p, SupervisorEvent::Item, 500), SupervisorAction::Forward);
    assert_eq!(s.items, 11);
    assert_eq!(s.transport_errors, 1);
    // the next loss is announced again
    assert_eq!(s.step(&p, SupervisorEvent::Closed, 0), SupervisorAction::AnnounceAndWait(400));
}

#[test]
fn announcements_never_outnumber_resumptions_by_more_than_one() {
    let p = policy();
    let events = [
        SupervisorEvent::Start,
        SupervisorEvent::Connected,
        SupervisorEvent::Subscribed,
        SupervisorEvent::Item,
        SupervisorEvent::Closed,
        SupervisorEvent::TimerFired,
        SupervisorEvent::Failure(ErrorClass::Transport),
        SupervisorEvent::Failure(ErrorClass::Decode),
        SupervisorEvent::Failure(ErrorClass::ProtocolNoise),
    ];
    let mut s = ExchangeStreamSupervisor::new();
    let mut seed: u64 = 7;
    let mut announced = 0u32;
    let mut resumed = 0u32;
    let mut waiting_for_resumption = false;
    for _ in 0..20_000 {
        seed = seed.wrapping_mul(6364136223846793005).wrapping_add(1442695040888963407);
        let event = events[((seed >> 33) % events.len() as u64) as usize];
        let before = s.phase;
        match s.step(&p, event, (seed >> 20) % 1001) {
            SupervisorAction::AnnounceAndWait(ms) => {
                assert!(!waiting_for_resumption, "a second announcement before the stream ran again");
                assert!(ms <= 30_000);
                waiting_for_resumption = true;
                announced += 1;
            },
            SupervisorAction::Wait(ms) => {
                assert!(waiting_for_resumption);
                assert!(ms <= 30_000);
            },
            _ => {},
        }
        if before == Phase::Subscribing && s.phase == Phase::Streaming {
            waiting_for_resumption = false;
            resumed += 1;
        }
    }
    assert!(announced > 100);
    assert!(announced <= resumed + 1);
}

#[test]
fn noise_and_decode_errors_are_counted_and_dropped() {
    let p = policy();
    let mut s = started();
    assert_eq!(s.step(&p, SupervisorEvent::Failure(ErrorClass::ProtocolNoise), 500), SupervisorAction::Discard);
    assert_eq!(s.step(&p, SupervisorEvent::Failure(ErrorClass::ProtocolNoise), 500), SupervisorAction::Discard);
    assert_eq!(s.step(&p, SupervisorEvent::Failure(ErrorClass::Decode), 500), SupervisorAction::Discard);
    assert_eq!(s.noise, 2);
    assert_eq!(s.decode_errors, 1);
    assert_eq!(s.transport_errors, 0);
    assert_eq!(s.phase, Phase::Streaming);
    assert_eq!(s.step(&p, SupervisorEvent::Item, 500), SupervisorAction::Forward);
}

#[test]
fn fatal_configuration_ends_the_supervisor() {
    let p = policy();
    let mut s = started();
    assert_eq!(s.step(&p, SupervisorEvent::Failure(ErrorClass::FatalConfig), 500), SupervisorAction::Terminate);
    assert_eq!(s.phase, Phase::Failed);
    let failed = s;
    for event in [
        SupervisorEvent::Start,
        SupervisorEvent::Connected,
        SupervisorEvent::Subscribed,
        SupervisorEvent::Item,
        SupervisorEvent::Closed,
        SupervisorEvent::TimerFired,
        SupervisorEvent::Failure(ErrorClass::Transport),
        SupervisorEvent::Failure(ErrorClass::FatalConfig),
    ] {
        assert_eq!(s.step(&p, event, 500), SupervisorAction::Nothing);
        assert_eq!(s, failed);
    }
}

#[test]
fn events_out_of_place_change_nothing() {
    let p = policy();
    let mut s = ExchangeStreamSupervisor::new();
    let idle = s;
    for event in [SupervisorEvent::Connected, SupervisorEvent::Subscribed, SupervisorEvent::Closed, SupervisorEvent::TimerFired] {
        assert_eq!(s.step(&p, event, 500), SupervisorAction::Nothing);
        assert_eq!(s, idle);
    }
    assert_eq!(s.step(&p, SupervisorEvent::Item, 500), SupervisorAction::Discard);
    assert_eq!(s, idle);
    // a transport error before the start is counted, no more
    assert_eq!(s.step(&p, SupervisorEvent::Failure(ErrorClass::Transport), 500), SupervisorAction::Nothing);
    assert_eq!(s.phase, Phase::Idle);
    assert_eq!(s.transport_errors, 1);
    let mut s = started();
    assert_eq!(s.step(&p, SupervisorEvent::Start, 500), SupervisorAction::Nothing);
    assert_eq!(s.phase, Phase::Streaming);
}

#[test]
fn first_connection_that_fails_is_announced_once() {
    let p = policy();
    let mut s = ExchangeStreamSupervisor::new();
    s.step(&p, SupervisorEvent::Start, 500);
    assert_eq!(s.step(&p, SupervisorEvent::Closed, 500), SupervisorAction::AnnounceAndWait(500));
    s.step(&p, SupervisorEvent::TimerFired, 500);
    assert_eq!(s.step(&p, SupervisorEvent::Closed, 500), SupervisorAction::Wait(1000));
}

#[test]
fn create_outcome_reads_the_answer() {
    assert_eq!(create_outcome(None), CreateOutcome::Created);
    assert_eq!(create_outcome(Some("Topic already exists")), CreateOutcome::AlreadyExists);
    assert_eq!(create_outcome(Some("topic \"m.trades\" already exists on the cluster")), CreateOutcome::AlreadyExists);
    assert_eq!(create_outcome(Some("permission denied")), CreateOutcome::Failed);
    assert_eq!(create_outcome(Some("Already Exists")), CreateOutcome::Failed);
    assert_eq!(create_outcome(Some("")), CreateOutcome::Failed);
}

#[test]
fn topics_are_set_up_in_order() {
    let mut s = TopicSetup::new();
    let mut made = Vec::new();
    let answers = [CreateOutcome::Created, CreateOutcome::AlreadyExists, CreateOutcome::Created, CreateOutcome::AlreadyExists, CreateOutcome::Created];
    for answer in answers {
        assert!(!s.is_complete());
        made.push(s.next_topic().unwrap());
        s.record(answer);
    }
    assert_eq!(made, Topic::all());
    assert!(s.is_complete());
    assert_eq!(s.next_topic(), None);
    // a further answer changes nothing
    s.record(CreateOutcome::Failed);
    assert!(s.is_complete());
}

#[test]
fn setting_up_twice_succeeds() {
    let mut first = TopicSetup::new();
    while first.next_topic().is_some() {
        first.record(CreateOutcome::Created);
    }
    let mut second = TopicSetup::new();
    while second.next_topic().is_some() {
        second.record(CreateOutcome::AlreadyExists);
    }
    assert!(first.is_complete());
    assert_eq!(first, second);
}

#[test]
fn a_failed_creation_ends_the_setup() {
    let mut s = TopicSetup::new();
    s.record(CreateOutcome::Created);
    s.record(CreateOutcome::Failed);
    assert_eq!(s, TopicSetup { done: 1, failed: true });
    assert_eq!(s.next_topic(), None);
    assert!(!s.is_complete());
    s.record(CreateOutcome::Created);
    assert_eq!(s, TopicSetup { done: 1, failed: true });
}

#[test]
fn sends_are_tried_five_times() {
    let r = RetryPolicy::default();
    assert_eq!(r.max_attempts, 5);
    assert_eq!(DEFAULT_SEND_ATTEMPTS, 5);
    assert_eq!(r.after_failure(1, 500), RetryDecision::RetryAfter(500));
    assert_eq!(r.after_failure(2, 500), RetryDecision::RetryAfter(1000));
    assert_eq!(r.after_failure(3, 500), RetryDecision::RetryAfter(2000));
    assert_eq!(r.after_failure(4, 500), RetryDecision::RetryAfter(4000));
    assert_eq!(r.after_failure(5, 500), RetryDecision::GiveUp);
    assert_eq!(r.after_failure(6, 500), RetryDecision::GiveUp);
    assert_eq!(r.after_failure(0, 500), RetryDecision::GiveUp);
    assert_eq!(r.after_failure(1, 0), RetryDecision::RetryAfter(400));
    let once = RetryPolicy { max_attempts: 1, backoff: BackoffPolicy::default() };
    assert_eq!(once.after_failure(1, 500), RetryDecision::GiveUp);
}

#[test]
fn queue_is_first_in_first_out() {
    let mut q: BoundedQueue<u32> = BoundedQueue::new(3);
    assert_eq!(q.len(), 0);
    assert!(!q.is_full());
    assert_eq!(q.take(), None);
    for i in 1..=3 {
        assert_eq!(q.offer(i), Ok(()));
    }
    assert!(q.is_full());
    assert_eq!(q.take(), Some(1));
    assert_eq!(q.offer(4), Ok(()));
    assert_eq!(q.take(), Some(2));
    assert_eq!(q.take(), Some(3));
    assert_eq!(q.take(), Some(4));
    assert_eq!(q.take(), None);
    assert_eq!(DEFAULT_QUEUE_CAPACITY, 8192);
}

#[test]
fn full_queue_hands_the_item_back() {
    let mut q: BoundedQueue<String> = BoundedQueue::new(2);
    assert_eq!(q.offer("a".to_string()), Ok(()));
    assert_eq!(q.offer("b".to_string()), Ok(()));
    assert_eq!(q.offer("c".to_string()), Err("c".to_string()));
    assert_eq!(q.len(), 2);
    assert_eq!(q.take(), Some("a".to_string()));
    assert_eq!(q.offer("c".to_string()), Ok(()));
    let mut none: BoundedQueue<u8> = BoundedQueue::new(0);
    assert!(none.is_full());
    assert_eq!(none.offer(1), Err(1));
}

#[test]
fn saturated_queue_loses_and_repeats_nothing() {
    // a producer that offers faster than the consumer takes, and offers again what was handed back
    let mut q: BoundedQueue<u64> = BoundedQueue::new(8);
    let mut taken: Vec<u64> = Vec::new();
    let mut next: u64 = 0;
    let mut held_back: Option<u64> = None;
    let mut seed: u64 = 5;
    for _ in 0..10_000 {
        seed = seed.wrapping_mul(6364136223846793005).wrapping_add(1442695040888963407);
        if (seed >> 40) % 4 != 0 {
            let item = held_back.take().unwrap_or_else(|| {
                next += 1;
                next
            });
            if let Err(back) = q.offer(item) {
                assert_eq!(back, item);
                held_back = Some(back);
            }
        } else if let Some(item) = q.take() {
            taken.push(item);
        }
        assert!(q.len() <= 8);
        let under_way = next - taken.len() as u64 - held_back.map_or(0, |_| 1);
        assert_eq!(under_way, q.len() as u64);
    }
    while let Some(item) = q.take() {
        taken.push(item);
    }
    let accepted = next - held_back.map_or(0, |_| 1);
    assert_eq!(taken, (1..=accepted).collect::<Vec<u64>>());
    assert!(taken.len() > 1000);
}

fn message(topic: Topic, n: u8) -> crypto_monitor::bus::Outgoing {
    crypto_monitor::bus::Outgoing { topic, key: "binance:btc/usdt:spot".to_string(), partition: 7, payload: vec![n] }
}

fn ready_producer(capacity: usize) -> crypto_monitor::bus::BusProducer {
    let mut p = crypto_monitor::bus::BusProducer::new(capacity, RetryPolicy::default());
    let mut created = Vec::new();
    while let Some(topic) = p.next_topic() {
        created.push(topic);
        p.topic_answered(if created.len() % 2 == 0 { Some("topic already exists") } else { None });
    }
    assert_eq!(created, Topic::all());
    assert!(p.is_ready());
    p
}

#[test]
fn producer_takes_nothing_before_its_topics_are_there() {
    let mut p = crypto_monitor::bus::BusProducer::new(4, RetryPolicy::default());
    assert!(!p.is_ready());
    match p.publish(message(Topic::Anomalies, 1)) {
        Err((why, back)) => {
            assert_eq!(why, crypto_monitor::bus::Refusal::NotReady);
            assert_eq!(back.payload, vec![1]);
        },
        Ok(()) => panic!("taken"),
    }
    p.topic_answered(None);
    p.topic_answered(Some("broker unreachable"));
    assert!(!p.is_ready());
    assert_eq!(p.next_topic(), None);
    assert!(p.publish(message(Topic::Anomalies, 1)).is_err());
}

#[test]
fn producer_queues_by_topic_and_pushes_back_when_full() {
    let mut p = ready_producer(2);
    assert!(p.publish(message(Topic::MarketTrades, 1)).is_ok());
    assert!(p.publish(message(Topic::Anomalies, 2)).is_ok());
    assert!(p.publish(message(Topic::MarketTrades, 3)).is_ok());
    assert_eq!(p.waiting(Topic::MarketTrades), 2);
    assert_eq!(p.waiting(Topic::Anomalies), 1);
    assert_eq!(p.waiting(Topic::Alerts), 0);
    match p.publish(message(Topic::MarketTrades, 4)) {
        Err((why, back)) => {
            assert_eq!(why, crypto_monitor::bus::Refusal::Full);
            assert_eq!(back.payload, vec![4]);
            assert_eq!(back.topic, Topic::MarketTrades);
        },
        Ok(()) => panic!("taken by a full queue"),
    }
    // the other topics still take
    assert!(p.publish(message(Topic::Anomalies, 5)).is_ok());
    assert_eq!(p.next_to_send(Topic::MarketTrades).unwrap().payload, vec![1]);
    assert!(p.publish(message(Topic::MarketTrades, 4)).is_ok());
    assert_eq!(p.next_to_send(Topic::MarketTrades).unwrap().payload, vec![3]);
    assert_eq!(p.next_to_send(Topic::MarketTrades).unwrap().payload, vec![4]);
    assert!(p.next_to_send(Topic::MarketTrades).is_none());
    assert_eq!(p.next_to_send(Topic::Anomalies).unwrap().payload, vec![2]);
    assert_eq!(p.next_to_send(Topic::Anomalies).unwrap().payload, vec![5]);
    assert!(p.next_to_send(Topic::Trades).is_none());
    assert!(p.next_to_send(Topic::MarketBook).is_none());
    assert_eq!(p.after_failure(4, 500), RetryDecision::RetryAfter(4000));
    assert_eq!(p.after_failure(5, 500), RetryDecision::GiveUp);
}

#[test]
fn exit_codes() {
    use_exit_codes();
}

fn use_exit_codes() {
    assert_eq!(crypto_monitor::error::exit_code(crypto_monitor::error::Outcome::CleanShutdown), 0);
    assert_eq!(crypto_monitor::error::exit_code(crypto_monitor::error::Outcome::ConfigError), 2);
    assert_eq!(crypto_monitor::error::exit_code(crypto_monitor::error::Outcome::BusUnreachable), 3);
    assert_eq!(crypto_monitor::error::exit_code(crypto_monitor::error::Outcome::SupervisorFatal), 4);
}

#[test]
fn timeouts() {
    assert_eq!(crypto_monitor::supervisor::READ_TIMEOUT_MS, 60_000);
    assert_eq!(crypto_monitor::bus::PUBLISH_TIMEOUT_MS, 5_000);
    assert_eq!(crypto_monitor::bus::DRAIN_TIMEOUT_MS, 10_000);
}
