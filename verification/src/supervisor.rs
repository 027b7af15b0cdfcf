//! The decisions of the supervisor of one exchange stream: what a stream
//! error means, how long to wait before reconnecting, and which state and
//! action follow each event.  Sockets and timers belong to the caller, who
//! feeds events in and carries actions out.

use crate::text::{contains, text_contains};
use vstd::arithmetic::power::{lemma_pow_positive, pow};
use vstd::prelude::*;

verus! {

/// How long, in milliseconds, a stream may stay silent before it is taken
/// for lost.
pub const READ_TIMEOUT_MS: u64 = 60_000;

/// What the adapter of an exchange says of an error.
#[derive(Clone, Copy, Debug, PartialEq, Eq, Structural)]
pub enum StreamErrorKind {
    Transport,
    Decode,
    Config,
}

/// What the supervisor makes of an error.
#[derive(Clone, Copy, Debug, PartialEq, Eq, Structural)]
pub enum ErrorClass {
    Transport,
    ProtocolNoise,
    Decode,
    FatalConfig,
}

/// Whether an error message is protocol noise: it speaks of a ping, a pong
/// or a subscription identifier.
pub open spec fn is_noise(message: Seq<char>) -> bool {
    ||| text_contains(message, "pong"@)
    ||| text_contains(message, "ping"@)
    ||| text_contains(message, "subscription_id"@)
}

/// The class of an error: a configuration error is fatal; any other error
/// whose message is protocol noise is noise; else the error is what the
/// adapter says.
pub open spec fn error_class(kind: StreamErrorKind, message: Seq<char>) -> ErrorClass {
    match kind {
        StreamErrorKind::Config => ErrorClass::FatalConfig,
        StreamErrorKind::Transport => if is_noise(message) {
            ErrorClass::ProtocolNoise
        } else {
            ErrorClass::Transport
        },
        StreamErrorKind::Decode => if is_noise(message) {
            ErrorClass::ProtocolNoise
        } else {
            ErrorClass::Decode
        },
    }
}

/// Classifies an error of a stream.
pub fn classify_error(kind: StreamErrorKind, message: &str) -> (c: ErrorClass)
    ensures
        c == error_class(kind, message@),
{
    match kind {
        StreamErrorKind::Config => ErrorClass::FatalConfig,
        StreamErrorKind::Transport => if contains(message, "pong") || contains(message, "ping")
            || contains(message, "subscription_id") {
            ErrorClass::ProtocolNoise
        } else {
            ErrorClass::Transport
        },
        StreamErrorKind::Decode => if contains(message, "pong") || contains(message, "ping")
            || contains(message, "subscription_id") {
            ErrorClass::ProtocolNoise
        } else {
            ErrorClass::Decode
        },
    }
}

/// How waits grow: the first wait, the factor by which each failure
/// multiplies it, the longest wait, and the jitter in thousandths.
#[derive(Clone, Copy, Debug, PartialEq, Eq, Structural)]
pub struct BackoffPolicy {
    pub base_ms: u64,
    pub factor: u64,
    pub cap_ms: u64,
    pub jitter_permille: u64,
}

impl Default for BackoffPolicy {
    fn default() -> (p: Self)
        ensures
            p == (BackoffPolicy { base_ms: 500, factor: 2, cap_ms: 30_000, jitter_permille: 200 }),
    {
        BackoffPolicy { base_ms: 500, factor: 2, cap_ms: 30_000, jitter_permille: 200 }
    }
}

/// The smaller of two integers.
pub open spec fn least(a: int, b: int) -> int {
    if a < b {
        a
    } else {
        b
    }
}

/// The wait before jitter after `attempt` failures: the first wait, and
/// after each failure the factor times the wait before, never more than the
/// cap.
pub open spec fn raw_delay(policy: BackoffPolicy, attempt: nat) -> int
    decreases attempt,
{
    if attempt == 0 {
        least(policy.base_ms as int, policy.cap_ms as int)
    } else {
        least(raw_delay(policy, (attempt - 1) as nat) * policy.factor, policy.cap_ms as int)
    }
}

/// The wait after `attempt` failures with the random draw `draw` out of
/// 1000: the raw wait, moved by the jitter down (draw 0) or up (draw 1000),
/// and never more than the cap.
pub open spec fn delay_spec(policy: BackoffPolicy, attempt: nat, draw: int) -> int {
    let jitter = least(policy.jitter_permille as int, 1000);
    let d = least(draw, 1000);
    let scale = 1000 - jitter + (2 * jitter * d) / 1000;
    least((raw_delay(policy, attempt) * scale) / 1000, policy.cap_ms as int)
}

proof fn lemma_raw_delay_bounds(policy: BackoffPolicy, attempt: nat)
    ensures
        0 <= raw_delay(policy, attempt) <= policy.cap_ms,
    decreases attempt,
{
    if attempt > 0 {
        lemma_raw_delay_bounds(policy, (attempt - 1) as nat);
    }
}

proof fn lemma_raw_delay_settles(policy: BackoffPolicy, at: nat, later: nat)
    requires
        at <= later,
        raw_delay(policy, at + 1) == raw_delay(policy, at),
    ensures
        raw_delay(policy, later) == raw_delay(policy, at),
    decreases later,
{
    if later > at {
        lemma_raw_delay_settles(policy, at, (later - 1) as nat);
    }
}

/// Exponential growth.  Where the factor is at least 1, the wait before
/// jitter after `attempt` failures is the first wait times the factor to the
/// power of `attempt`, or the cap where that is more.
pub proof fn lemma_raw_delay_is_exponential(policy: BackoffPolicy, attempt: nat)
    requires
        policy.factor >= 1,
    ensures
        raw_delay(policy, attempt) == least(
            policy.base_ms * pow(policy.factor as int, attempt),
            policy.cap_ms as int,
        ),
    decreases attempt,
{
    let f = policy.factor as int;
    let b = policy.base_ms as int;
    let c = policy.cap_ms as int;
    reveal(pow);
    if attempt == 0 {
        assert(pow(f, 0) == 1);
        assert(b * pow(f, 0) == b) by (nonlinear_arith)
            requires
                pow(f, 0) == 1,
        ;
    } else {
        let before = (attempt - 1) as nat;
        lemma_raw_delay_is_exponential(policy, before);
        lemma_pow_positive(f, before);
        let grown = b * pow(f, before);
        assert(pow(f, attempt) == f * pow(f, before));
        assert(b * pow(f, attempt) == grown * f) by (nonlinear_arith)
            requires
                pow(f, attempt) == f * pow(f, before),
                grown == b * pow(f, before),
        ;
        assert(grown >= 0) by (nonlinear_arith)
            requires
                grown == b * pow(f, before),
                b >= 0,
                pow(f, before) > 0,
        ;
        if grown <= c {
            assert(raw_delay(policy, before) == grown);
        } else {
            assert(raw_delay(policy, before) == c);
            assert(c * f >= c && grown * f >= grown) by (nonlinear_arith)
                requires
                    f >= 1,
                    c >= 0,
                    grown >= 0,
            ;
        }
    }
}

/// Jitter within bounds.  The wait lies between the raw wait moved down and
/// the raw wait moved up by the jitter, both held to the cap.
pub proof fn lemma_delay_within_jitter(policy: BackoffPolicy, attempt: nat, draw: int)
    requires
        0 <= draw,
    ensures
        least(
            (raw_delay(policy, attempt) * (1000 - least(policy.jitter_permille as int, 1000)))
                / 1000,
            policy.cap_ms as int,
        ) <= delay_spec(policy, attempt, draw) <= least(
            (raw_delay(policy, attempt) * (1000 + least(policy.jitter_permille as int, 1000)))
                / 1000,
            policy.cap_ms as int,
        ),
        0 <= delay_spec(policy, attempt, draw) <= policy.cap_ms,
{
    lemma_raw_delay_bounds(policy, attempt);
    let raw = raw_delay(policy, attempt);
    let jitter = least(policy.jitter_permille as int, 1000);
    let d = least(draw, 1000);
    let moved = (2 * jitter * d) / 1000;
    assert(0 <= 2 * jitter * d <= 2 * jitter * 1000) by (nonlinear_arith)
        requires
            0 <= jitter,
            0 <= d <= 1000,
    ;
    assert(0 <= moved <= 2 * jitter);
    let scale = 1000 - jitter + moved;
    assert(raw * (1000 - jitter) <= raw * scale <= raw * (1000 + jitter)) by (nonlinear_arith)
        requires
            0 <= raw,
            1000 - jitter <= scale <= 1000 + jitter,
    ;
    assert(raw * (1000 - jitter) >= 0) by (nonlinear_arith)
        requires
            0 <= raw,
            0 <= 1000 - jitter,
    ;
}

impl BackoffPolicy {
    /// The wait before jitter after `attempt` failures.
    pub fn raw(&self, attempt: u32) -> (r: u64)
        ensures
            r == raw_delay(*self, attempt as nat),
            r <= self.cap_ms,
    {
        let mut cur: u64 = if self.base_ms < self.cap_ms {
            self.base_ms
        } else {
            self.cap_ms
        };
        let mut i: u32 = 0;
        while i < attempt
            invariant
                i <= attempt,
                cur == raw_delay(*self, i as nat),
                cur <= self.cap_ms,
            decreases attempt - i,
        {
            proof {
                assert(cur as int * self.factor as int <= 0xFFFF_FFFF_FFFF_FFFF * 0xFFFF_FFFF_FFFF_FFFF)
                    by (nonlinear_arith)
                    requires
                        0 <= cur as int <= 0xFFFF_FFFF_FFFF_FFFF,
                        0 <= self.factor as int <= 0xFFFF_FFFF_FFFF_FFFF,
                ;
            }
            let grown: u128 = (cur as u128) * (self.factor as u128);
            let next: u64 = if grown < self.cap_ms as u128 {
                grown as u64
            } else {
                self.cap_ms
            };
            if next == cur {
                proof {
                    lemma_raw_delay_settles(*self, i as nat, attempt as nat);
                }
                return cur;
            }
            cur = next;
            i = i + 1;
        }
        cur
    }

    /// The wait after `attempt` failures, with a random draw out of 1000.
    pub fn delay(&self, attempt: u32, draw: u64) -> (r: u64)
        ensures
            r == delay_spec(*self, attempt as nat, draw as int),
            r <= self.cap_ms,
    {
        let raw = self.raw(attempt);
        let jitter: u64 = if self.jitter_permille < 1000 {
            self.jitter_permille
        } else {
            1000
        };
        let d: u64 = if draw < 1000 {
            draw
        } else {
            1000
        };
        proof {
            assert(0 <= 2 * jitter * d <= 2_000_000) by (nonlinear_arith)
                requires
                    0 <= jitter <= 1000,
                    0 <= d <= 1000,
            ;
        }
        let scale: u64 = 1000 - jitter + (2 * jitter * d) / 1000;
        proof {
            assert(raw as int * scale as int <= 0xFFFF_FFFF_FFFF_FFFF * 3000) by (nonlinear_arith)
                requires
                    0 <= raw as int <= 0xFFFF_FFFF_FFFF_FFFF,
                    0 <= scale as int <= 3000,
            ;
        }
        let moved: u128 = ((raw as u128) * (scale as u128)) / 1000;
        if moved < self.cap_ms as u128 {
            moved as u64
        } else {
            self.cap_ms
        }
    }
}

/// Where the supervisor of a stream stands.
#[derive(Clone, Copy, Debug, PartialEq, Eq, Structural)]
pub enum Phase {
    Idle,
    Connecting,
    Subscribing,
    Streaming,
    Backoff,
    Failed,
}

/// What the supervisor of a stream holds: its phase, the number of failures
/// since it last streamed, whether it has announced that it is reconnecting,
/// and its counters.
#[derive(Clone, Copy, Debug, PartialEq, Eq, Structural)]
pub struct ExchangeStreamSupervisor {
    pub phase: Phase,
    pub attempt: u32,
    pub reconnecting: bool,
    pub items: u64,
    pub noise: u64,
    pub decode_errors: u64,
    pub transport_errors: u64,
}

/// What can happen to a stream.
#[derive(Clone, Copy, Debug, PartialEq, Eq, Structural)]
pub enum SupervisorEvent {
    Start,
    Connected,
    Subscribed,
    Item,
    Failure(ErrorClass),
    Closed,
    TimerFired,
}

/// What the supervisor asks its caller to do.
#[derive(Clone, Copy, Debug, PartialEq, Eq, Structural)]
pub enum SupervisorAction {
    Nothing,
    Connect,
    Subscribe,
    Forward,
    Discard,
    AnnounceAndWait(u64),
    Wait(u64),
    Terminate,
}

/// A counter raised by one, held at the largest value it can take.
pub open spec fn bumped(count: u64) -> u64 {
    if count == u64::MAX {
        count
    } else {
        (count + 1) as u64
    }
}

/// A number of failures raised by one, held at the largest value it can
/// take.
pub open spec fn next_attempt(attempt: u32) -> u32 {
    if attempt == u32::MAX {
        attempt
    } else {
        (attempt + 1) as u32
    }
}

/// Whether the stream is lost by a disconnect in this phase.
pub open spec fn connected_phase(phase: Phase) -> bool {
    phase == Phase::Connecting || phase == Phase::Subscribing || phase == Phase::Streaming
}

/// The state after the stream was lost: a wait begins, the failure is
/// counted, and the loss is announced unless it was already.
pub open spec fn lost(s: ExchangeStreamSupervisor) -> ExchangeStreamSupervisor {
    ExchangeStreamSupervisor {
        phase: Phase::Backoff,
        attempt: next_attempt(s.attempt),
        reconnecting: true,
        ..s
    }
}

/// The action after the stream was lost: a wait, with an announcement where
/// none was made since the stream last ran.
pub open spec fn lost_action(s: ExchangeStreamSupervisor, policy: BackoffPolicy, draw: u64) -> SupervisorAction {
    let wait = delay_spec(policy, s.attempt as nat, draw as int) as u64;
    if s.reconnecting {
        SupervisorAction::Wait(wait)
    } else {
        SupervisorAction::AnnounceAndWait(wait)
    }
}

/// The state that follows an event.
pub open spec fn next_state(s: ExchangeStreamSupervisor, event: SupervisorEvent) -> ExchangeStreamSupervisor {
    if s.phase == Phase::Failed {
        s
    } else {
        match event {
            SupervisorEvent::Start => if s.phase == Phase::Idle {
                ExchangeStreamSupervisor { phase: Phase::Connecting, ..s }
            } else {
                s
            },
            SupervisorEvent::Connected => if s.phase == Phase::Connecting {
                ExchangeStreamSupervisor { phase: Phase::Subscribing, ..s }
            } else {
                s
            },
            SupervisorEvent::Subscribed => if s.phase == Phase::Subscribing {
                ExchangeStreamSupervisor { phase: Phase::Streaming, attempt: 0, reconnecting: false, ..s }
            } else {
                s
            },
            SupervisorEvent::Item => if s.phase == Phase::Streaming {
                ExchangeStreamSupervisor { items: bumped(s.items), ..s }
            } else {
                s
            },
            SupervisorEvent::Failure(ErrorClass::ProtocolNoise) => ExchangeStreamSupervisor {
                noise: bumped(s.noise),
                ..s
            },
            SupervisorEvent::Failure(ErrorClass::Decode) => ExchangeStreamSupervisor {
                decode_errors: bumped(s.decode_errors),
                ..s
            },
            SupervisorEvent::Failure(ErrorClass::FatalConfig) => ExchangeStreamSupervisor {
                phase: Phase::Failed,
                ..s
            },
            SupervisorEvent::Failure(ErrorClass::Transport) => if connected_phase(s.phase) {
                lost(ExchangeStreamSupervisor { transport_errors: bumped(s.transport_errors), ..s })
            } else {
                ExchangeStreamSupervisor { transport_errors: bumped(s.transport_errors), ..s }
            },
            SupervisorEvent::Closed => if connected_phase(s.phase) {
                lost(s)
            } else {
                s
            },
            SupervisorEvent::TimerFired => if s.phase == Phase::Backoff {
                ExchangeStreamSupervisor { phase: Phase::Connecting, ..s }
            } else {
                s
            },
        }
    }
}

/// The action that follows an event.
pub open spec fn next_action(
    s: ExchangeStreamSupervisor,
    policy: BackoffPolicy,
    event: SupervisorEvent,
    draw: u64,
) -> SupervisorAction {
    if s.phase == Phase::Failed {
        SupervisorAction::Nothing
    } else {
        match event {
            SupervisorEvent::Start => if s.phase == Phase::Idle {
                SupervisorAction::Connect
            } else {
                SupervisorAction::Nothing
            },
            SupervisorEvent::Connected => if s.phase == Phase::Connecting {
                SupervisorAction::Subscribe
            } else {
                SupervisorAction::Nothing
            },
            SupervisorEvent::Subscribed => SupervisorAction::Nothing,
            SupervisorEvent::Item => if s.phase == Phase::Streaming {
                SupervisorAction::Forward
            } else {
                SupervisorAction::Discard
            },
            SupervisorEvent::Failure(ErrorClass::ProtocolNoise) => SupervisorAction::Discard,
            SupervisorEvent::Failure(ErrorClass::Decode) => SupervisorAction::Discard,
            SupervisorEvent::Failure(ErrorClass::FatalConfig) => SupervisorAction::Terminate,
            SupervisorEvent::Failure(ErrorClass::Transport) => if connected_phase(s.phase) {
                lost_action(s, policy, draw)
            } else {
                SupervisorAction::Nothing
            },
            SupervisorEvent::Closed => if connected_phase(s.phase) {
                lost_action(s, policy, draw)
            } else {
                SupervisorAction::Nothing
            },
            SupervisorEvent::TimerFired => if s.phase == Phase::Backoff {
                SupervisorAction::Connect
            } else {
                SupervisorAction::Nothing
            },
        }
    }
}

fn bump(count: u64) -> (r: u64)
    ensures
        r == bumped(count),
{
    if count == u64::MAX {
        count
    } else {
        count + 1
    }
}

impl ExchangeStreamSupervisor {
    /// The state of a supervisor that has not started.
    pub fn new() -> (s: Self)
        ensures
            s == (ExchangeStreamSupervisor {
                phase: Phase::Idle,
                attempt: 0,
                reconnecting: false,
                items: 0,
                noise: 0,
                decode_errors: 0,
                transport_errors: 0,
            }),
    {
        ExchangeStreamSupervisor {
            phase: Phase::Idle,
            attempt: 0,
            reconnecting: false,
            items: 0,
            noise: 0,
            decode_errors: 0,
            transport_errors: 0,
        }
    }

    fn lose(&mut self, policy: &BackoffPolicy, draw: u64) -> (a: SupervisorAction)
        ensures
            *final(self) == lost(*old(self)),
            a == lost_action(*old(self), *policy, draw),
            a matches SupervisorAction::Wait(ms) ==> ms <= policy.cap_ms,
            a matches SupervisorAction::AnnounceAndWait(ms) ==> ms <= policy.cap_ms,
            a is Wait || a is AnnounceAndWait,
    {
        let wait = policy.delay(self.attempt, draw);
        let announced = self.reconnecting;
        self.phase = Phase::Backoff;
        self.attempt = if self.attempt == u32::MAX {
            self.attempt
        } else {
            self.attempt + 1
        };
        self.reconnecting = true;
        if announced {
            SupervisorAction::Wait(wait)
        } else {
            SupervisorAction::AnnounceAndWait(wait)
        }
    }

    /// Takes one event and says what to do.  `draw` is a random number out
    /// of 1000, used where a wait begins.
    pub fn step(&mut self, policy: &BackoffPolicy, event: SupervisorEvent, draw: u64) -> (a:
        SupervisorAction)
        ensures
            *final(self) == next_state(*old(self), event),
            a == next_action(*old(self), *policy, event, draw),
            a matches SupervisorAction::Wait(ms) ==> ms <= policy.cap_ms,
            a matches SupervisorAction::AnnounceAndWait(ms) ==> ms <= policy.cap_ms,
    {
        if self.phase == Phase::Failed {
            return SupervisorAction::Nothing;
        }
        let connected = self.phase == Phase::Connecting || self.phase == Phase::Subscribing
            || self.phase == Phase::Streaming;
        match event {
            SupervisorEvent::Start => if self.phase == Phase::Idle {
                self.phase = Phase::Connecting;
                SupervisorAction::Connect
            } else {
                SupervisorAction::Nothing
            },
            SupervisorEvent::Connected => if self.phase == Phase::Connecting {
                self.phase = Phase::Subscribing;
                SupervisorAction::Subscribe
            } else {
                SupervisorAction::Nothing
            },
            SupervisorEvent::Subscribed => {
                if self.phase == Phase::Subscribing {
                    self.phase = Phase::Streaming;
                    self.attempt = 0;
                    self.reconnecting = false;
                }
                SupervisorAction::Nothing
            },
            SupervisorEvent::Item => if self.phase == Phase::Streaming {
                self.items = bump(self.items);
                SupervisorAction::Forward
            } else {
                SupervisorAction::Discard
            },
            SupervisorEvent::Failure(ErrorClass::ProtocolNoise) => {
                self.noise = bump(self.noise);
                SupervisorAction::Discard
            },
            SupervisorEvent::Failure(ErrorClass::Decode) => {
                self.decode_errors = bump(self.decode_errors);
                SupervisorAction::Discard
            },
            SupervisorEvent::Failure(ErrorClass::FatalConfig) => {
                self.phase = Phase::Failed;
                SupervisorAction::Terminate
            },
            SupervisorEvent::Failure(ErrorClass::Transport) => {
                self.transport_errors = bump(self.transport_errors);
                if connected {
                    self.lose(policy, draw)
                } else {
                    SupervisorAction::Nothing
                }
            },
            SupervisorEvent::Closed => if connected {
                self.lose(policy, draw)
            } else {
                SupervisorAction::Nothing
            },
            SupervisorEvent::TimerFired => if self.phase == Phase::Backoff {
                self.phase = Phase::Connecting;
                SupervisorAction::Connect
            } else {
                SupervisorAction::Nothing
            },
        }
    }
}

/// One event together with the random draw that came with it.
pub struct Drawn {
    pub event: SupervisorEvent,
    pub draw: u64,
}

/// The state after a sequence of events.
pub open spec fn supervisor_run(s: ExchangeStreamSupervisor, events: Seq<Drawn>) -> ExchangeStreamSupervisor
    decreases events.len(),
{
    if events.len() == 0 {
        s
    } else {
        next_state(supervisor_run(s, events.drop_last()), events.last().event)
    }
}

/// How often the supervisor announces a reconnection over a sequence of
/// events.
pub open spec fn announcements(s: ExchangeStreamSupervisor, policy: BackoffPolicy, events: Seq<Drawn>) -> nat
    decreases events.len(),
{
    if events.len() == 0 {
        0
    } else {
        let before = supervisor_run(s, events.drop_last());
        let more: nat = if next_action(before, policy, events.last().event, events.last().draw)
            is AnnounceAndWait {
            1
        } else {
            0
        };
        announcements(s, policy, events.drop_last()) + more
    }
}

/// How often the stream comes to run over a sequence of events.
pub open spec fn resumptions(s: ExchangeStreamSupervisor, events: Seq<Drawn>) -> nat
    decreases events.len(),
{
    if events.len() == 0 {
        0
    } else {
        let before = supervisor_run(s, events.drop_last());
        let more: nat = if before.phase == Phase::Subscribing && events.last().event
            == SupervisorEvent::Subscribed {
            1
        } else {
            0
        };
        resumptions(s, events.drop_last()) + more
    }
}

/// Zero or one, for a flag.
pub open spec fn flag(b: bool) -> nat {
    if b {
        1
    } else {
        0
    }
}

/// No duplicate announcement.  Over any sequence of events the supervisor
/// announces a reconnection at most once more than the stream comes to run:
/// between two announcements the stream has run again.  A supervisor that has
/// announced and not resumed announces nothing until it resumes.
pub proof fn lemma_one_announcement_per_loss(
    s: ExchangeStreamSupervisor,
    policy: BackoffPolicy,
    events: Seq<Drawn>,
)
    ensures
        announcements(s, policy, events) + flag(s.reconnecting) <= resumptions(s, events) + flag(
            supervisor_run(s, events).reconnecting,
        ),
    decreases events.len(),
{
    if events.len() > 0 {
        lemma_one_announcement_per_loss(s, policy, events.drop_last());
    }
}

/// A failed supervisor stays failed, whatever comes.
pub proof fn lemma_failed_is_final(s: ExchangeStreamSupervisor, events: Seq<Drawn>)
    requires
        s.phase == Phase::Failed,
    ensures
        supervisor_run(s, events) == s,
    decreases events.len(),
{
    if events.len() > 0 {
        lemma_failed_is_final(s, events.drop_last());
    }
}

} // verus!
