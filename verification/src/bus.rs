//! The decisions of the bus producer: which topics to create and what the
//! answer to a creation means, when to try a failed send again, and the
//! bounded queue that holds what waits to be sent.  The sends themselves
//! belong to the caller.

use crate::event::Topic;
use crate::supervisor::{delay_spec, BackoffPolicy};
use crate::text::{contains, text_contains};
use std::collections::VecDeque;
use vstd::prelude::*;

verus! {

/// How many items the queue of a topic holds unless told otherwise.
pub const DEFAULT_QUEUE_CAPACITY: usize = 8192;

/// How long, in milliseconds, one try of a send may take.
pub const PUBLISH_TIMEOUT_MS: u64 = 5_000;

/// How long, in milliseconds, a shutdown waits for what is under way.
pub const DRAIN_TIMEOUT_MS: u64 = 10_000;

/// How often a send is tried unless told otherwise.
pub const DEFAULT_SEND_ATTEMPTS: u32 = 5;

/// What the answer to the creation of a topic means.
#[derive(Clone, Copy, Debug, PartialEq, Eq, Structural)]
pub enum CreateOutcome {
    Created,
    AlreadyExists,
    Failed,
}

/// What the answer to the creation of a topic means: no error is a
/// creation; an error that says the topic already exists is as good; any
/// other error is a failure.
pub open spec fn create_outcome_spec(error: Option<Seq<char>>) -> CreateOutcome {
    match error {
        None => CreateOutcome::Created,
        Some(message) => if text_contains(message, "already exists"@) {
            CreateOutcome::AlreadyExists
        } else {
            CreateOutcome::Failed
        },
    }
}

/// The error message as a mathematical value.
pub open spec fn message_view(error: Option<&str>) -> Option<Seq<char>> {
    match error {
        None => None,
        Some(message) => Some(message@),
    }
}

/// Reads the answer to the creation of a topic.
pub fn create_outcome(error: Option<&str>) -> (o: CreateOutcome)
    ensures
        o == create_outcome_spec(message_view(error)),
{
    match error {
        None => CreateOutcome::Created,
        Some(message) => if contains(message, "already exists") {
            CreateOutcome::AlreadyExists
        } else {
            CreateOutcome::Failed
        },
    }
}

/// How far the creation of the topics has come: how many are there, and
/// whether a creation failed.
#[derive(Clone, Copy, Debug, PartialEq, Eq, Structural)]
pub struct TopicSetup {
    pub done: usize,
    pub failed: bool,
}

/// The topic to create next, if the setup is neither finished nor failed.
pub open spec fn next_topic_spec(setup: TopicSetup) -> Option<Topic> {
    if setup.failed {
        None
    } else if setup.done == 0 {
        Some(Topic::MarketTrades)
    } else if setup.done == 1 {
        Some(Topic::MarketBook)
    } else if setup.done == 2 {
        Some(Topic::Anomalies)
    } else if setup.done == 3 {
        Some(Topic::Alerts)
    } else if setup.done == 4 {
        Some(Topic::Trades)
    } else {
        None
    }
}

/// The setup after the answer to the creation of the next topic: a topic
/// that was created or already existed counts as there; a failure ends the
/// setup.
pub open spec fn setup_after(setup: TopicSetup, outcome: CreateOutcome) -> TopicSetup {
    if next_topic_spec(setup) is None {
        setup
    } else if outcome == CreateOutcome::Failed {
        TopicSetup { failed: true, ..setup }
    } else {
        TopicSetup { done: (setup.done + 1) as usize, ..setup }
    }
}

impl TopicSetup {
    /// A setup that has created nothing yet.
    pub fn new() -> (s: Self)
        ensures
            s == (TopicSetup { done: 0, failed: false }),
    {
        TopicSetup { done: 0, failed: false }
    }

    /// The topic to create next, if the setup is neither finished nor
    /// failed.
    pub fn next_topic(&self) -> (t: Option<Topic>)
        ensures
            t == next_topic_spec(*self),
    {
        if self.failed {
            None
        } else if self.done == 0 {
            Some(Topic::MarketTrades)
        } else if self.done == 1 {
            Some(Topic::MarketBook)
        } else if self.done == 2 {
            Some(Topic::Anomalies)
        } else if self.done == 3 {
            Some(Topic::Alerts)
        } else if self.done == 4 {
            Some(Topic::Trades)
        } else {
            None
        }
    }

    /// Takes the answer to the creation of the next topic.
    pub fn record(&mut self, outcome: CreateOutcome)
        ensures
            *final(self) == setup_after(*old(self), outcome),
    {
        if self.next_topic().is_none() {
            return ;
        }
        match outcome {
            CreateOutcome::Failed => {
                self.failed = true;
            },
            _ => {
                self.done = self.done + 1;
            },
        }
    }

    /// Whether every topic is there.
    pub fn is_complete(&self) -> (r: bool)
        ensures
            r == (!self.failed && self.done >= 5),
    {
        !self.failed && self.done >= 5
    }
}

/// Creating topics is idempotent: a setup in which every topic already
/// existed ends as one in which every topic was created.
pub proof fn lemma_existing_topics_are_success(setup: TopicSetup)
    ensures
        setup_after(setup, CreateOutcome::AlreadyExists) == setup_after(
            setup,
            CreateOutcome::Created,
        ),
{
}

/// What to do after a send failed.
#[derive(Clone, Copy, Debug, PartialEq, Eq, Structural)]
pub enum RetryDecision {
    RetryAfter(u64),
    GiveUp,
}

/// How sends are tried again: how often a send is tried in all, and how the
/// waits between the tries grow.
#[derive(Clone, Copy, Debug, PartialEq, Eq, Structural)]
pub struct RetryPolicy {
    pub max_attempts: u32,
    pub backoff: BackoffPolicy,
}

/// What to do after the `failures`-th try of a send failed: wait and try
/// again while tries are left, else give up.
pub open spec fn retry_spec(policy: RetryPolicy, failures: u32, draw: u64) -> RetryDecision {
    if 1 <= failures < policy.max_attempts {
        RetryDecision::RetryAfter(
            delay_spec(policy.backoff, (failures - 1) as nat, draw as int) as u64,
        )
    } else {
        RetryDecision::GiveUp
    }
}

impl Default for RetryPolicy {
    fn default() -> (p: Self)
        ensures
            p == (RetryPolicy {
                max_attempts: 5,
                backoff: BackoffPolicy {
                    base_ms: 500,
                    factor: 2,
                    cap_ms: 30_000,
                    jitter_permille: 200,
                },
            }),
    {
        RetryPolicy { max_attempts: DEFAULT_SEND_ATTEMPTS, backoff: BackoffPolicy::default() }
    }
}

impl RetryPolicy {
    /// What to do after the `failures`-th try of a send failed.  `draw` is a
    /// random number out of 1000.
    pub fn after_failure(&self, failures: u32, draw: u64) -> (d: RetryDecision)
        ensures
            d == retry_spec(*self, failures, draw),
            d matches RetryDecision::RetryAfter(ms) ==> ms <= self.backoff.cap_ms,
    {
        if 1 <= failures && failures < self.max_attempts {
            RetryDecision::RetryAfter(self.backoff.delay(failures - 1, draw))
        } else {
            RetryDecision::GiveUp
        }
    }
}

/// A first-in, first-out queue that holds at most `capacity` items.  An
/// item offered to a full queue is handed back, so that the caller can wait
/// and offer it again: nothing is dropped.
#[derive(Debug)]
pub struct BoundedQueue<T> {
    items: VecDeque<T>,
    capacity: usize,
}

impl<T> View for BoundedQueue<T> {
    type V = Seq<T>;

    closed spec fn view(&self) -> Seq<T> {
        self.items@
    }
}

/// One thing that can be done to a queue.
pub enum QueueOp<T> {
    Offer(T),
    Take,
}

/// What a queue of capacity `cap` holds after an operation.
pub open spec fn queue_after<T>(q: Seq<T>, cap: nat, op: QueueOp<T>) -> Seq<T> {
    match op {
        QueueOp::Offer(item) => if q.len() < cap {
            q.push(item)
        } else {
            q
        },
        QueueOp::Take => if q.len() > 0 {
            q.subrange(1, q.len() as int)
        } else {
            q
        },
    }
}

/// What a queue holds after a sequence of operations.
pub open spec fn queue_run<T>(q: Seq<T>, cap: nat, ops: Seq<QueueOp<T>>) -> Seq<T>
    decreases ops.len(),
{
    if ops.len() == 0 {
        q
    } else {
        queue_after(queue_run(q, cap, ops.drop_last()), cap, ops.last())
    }
}

/// The items that a queue accepted over a sequence of operations, in order.
pub open spec fn accepted<T>(q: Seq<T>, cap: nat, ops: Seq<QueueOp<T>>) -> Seq<T>
    decreases ops.len(),
{
    if ops.len() == 0 {
        Seq::empty()
    } else {
        let before = queue_run(q, cap, ops.drop_last());
        let earlier = accepted(q, cap, ops.drop_last());
        match ops.last() {
            QueueOp::Offer(item) => if before.len() < cap {
                earlier.push(item)
            } else {
                earlier
            },
            QueueOp::Take => earlier,
        }
    }
}

/// The items that a queue gave out over a sequence of operations, in
/// order.
pub open spec fn delivered<T>(q: Seq<T>, cap: nat, ops: Seq<QueueOp<T>>) -> Seq<T>
    decreases ops.len(),
{
    if ops.len() == 0 {
        Seq::empty()
    } else {
        let before = queue_run(q, cap, ops.drop_last());
        let earlier = delivered(q, cap, ops.drop_last());
        match ops.last() {
            QueueOp::Offer(item) => earlier,
            QueueOp::Take => if before.len() > 0 {
                earlier.push(before[0])
            } else {
                earlier
            },
        }
    }
}

/// Backpressure without loss.  Whatever is done to a queue, what it held
/// at first followed by what it accepted is what it gave out followed by what
/// it still holds: every accepted item leaves once, in the order in which it
/// came, and at no time are more items under way than the queue's capacity.
pub proof fn lemma_queue_conserves<T>(q: Seq<T>, cap: nat, ops: Seq<QueueOp<T>>)
    requires
        q.len() <= cap,
    ensures
        q + accepted(q, cap, ops) == delivered(q, cap, ops) + queue_run(q, cap, ops),
        queue_run(q, cap, ops).len() <= cap,
        accepted(q, cap, ops).len() + q.len() == delivered(q, cap, ops).len() + queue_run(
            q,
            cap,
            ops,
        ).len(),
    decreases ops.len(),
{
    if ops.len() > 0 {
        lemma_queue_conserves(q, cap, ops.drop_last());
        let before = queue_run(q, cap, ops.drop_last());
        let d = delivered(q, cap, ops.drop_last());
        if let QueueOp::Offer(item) = ops.last() {
            if before.len() < cap {
                assert(d + before.push(item) =~= (d + before).push(item));
            }
        }
    }
}

impl<T> BoundedQueue<T> {
    /// The capacity that the queue was made with.
    pub closed spec fn capacity(&self) -> nat {
        self.capacity as nat
    }

    /// The queue's invariant: it holds no more than its capacity.
    pub closed spec fn valid(&self) -> bool {
        self.items@.len() <= self.capacity
    }

    /// What the invariant says, for callers that cannot see the fields.
    pub proof fn lemma_valid(&self)
        requires
            self.valid(),
        ensures
            self@.len() <= self.capacity(),
    {
    }

    /// An empty queue that holds up to `capacity` items.
    pub fn new(capacity: usize) -> (q: Self)
        ensures
            q.valid(),
            q@ == Seq::<T>::empty(),
            q.capacity() == capacity,
    {
        BoundedQueue { items: VecDeque::new(), capacity }
    }

    /// The number of items that wait.
    pub fn len(&self) -> (n: usize)
        ensures
            n == self@.len(),
    {
        self.items.len()
    }

    /// Whether the queue can take no more.
    pub fn is_full(&self) -> (r: bool)
        ensures
            r == (self@.len() >= self.capacity()),
    {
        self.items.len() >= self.capacity
    }

    /// Offers an item.  A queue with room takes it; a full queue hands it
    /// back and stays as it is.
    pub fn offer(&mut self, item: T) -> (r: Result<(), T>)
        requires
            old(self).valid(),
        ensures
            final(self).valid(),
            final(self).capacity() == old(self).capacity(),
            final(self)@ == queue_after(old(self)@, old(self).capacity(), QueueOp::Offer(item)),
            match r {
                Ok(_) => old(self)@.len() < old(self).capacity(),
                Err(back) => old(self)@.len() >= old(self).capacity() && back == item,
            },
    {
        if self.items.len() < self.capacity {
            self.items.push_back(item);
            Ok(())
        } else {
            Err(item)
        }
    }

    /// Takes the item that has waited longest, if any waits.
    pub fn take(&mut self) -> (r: Option<T>)
        requires
            old(self).valid(),
        ensures
            final(self).valid(),
            final(self).capacity() == old(self).capacity(),
            final(self)@ == queue_after(old(self)@, old(self).capacity(), QueueOp::Take),
            match r {
                Some(item) => old(self)@.len() > 0 && item == old(self)@[0],
                None => old(self)@.len() == 0,
            },
    {
        self.items.pop_front()
    }
}

/// One message that waits to be sent: where it goes, and what it says.
#[derive(Debug)]
pub struct Outgoing {
    pub topic: Topic,
    pub key: String,
    pub partition: u64,
    pub payload: Vec<u8>,
}

/// Why a message was not taken.
#[derive(Clone, Copy, Debug, PartialEq, Eq, Structural)]
pub enum Refusal {
    NotReady,
    Full,
}

/// The producer's side of the bus: the setup of the topics, one bounded
/// queue for each topic, and the rule by which failed sends are tried again.
#[derive(Debug)]
pub struct BusProducer {
    setup: TopicSetup,
    retry: RetryPolicy,
    market_trades: BoundedQueue<Outgoing>,
    market_book: BoundedQueue<Outgoing>,
    anomalies: BoundedQueue<Outgoing>,
    alerts: BoundedQueue<Outgoing>,
    trades: BoundedQueue<Outgoing>,
}

impl BusProducer {
    /// How far the setup of the topics has come.
    pub closed spec fn setup(&self) -> TopicSetup {
        self.setup
    }

    /// The rule by which failed sends are tried again.
    pub closed spec fn retry(&self) -> RetryPolicy {
        self.retry
    }

    /// The capacity of the queue of each topic.
    pub closed spec fn capacity(&self) -> nat {
        self.trades.capacity()
    }

    /// The messages that wait on a topic, the oldest first.
    pub closed spec fn queued(&self, topic: Topic) -> Seq<Outgoing> {
        match topic {
            Topic::MarketTrades => self.market_trades@,
            Topic::MarketBook => self.market_book@,
            Topic::Anomalies => self.anomalies@,
            Topic::Alerts => self.alerts@,
            Topic::Trades => self.trades@,
        }
    }

    /// The producer's invariant: every queue is within the one capacity.
    pub closed spec fn valid(&self) -> bool {
        &&& self.market_trades.valid()
        &&& self.market_book.valid()
        &&& self.anomalies.valid()
        &&& self.alerts.valid()
        &&& self.trades.valid()
        &&& self.market_trades.capacity() == self.trades.capacity()
        &&& self.market_book.capacity() == self.trades.capacity()
        &&& self.anomalies.capacity() == self.trades.capacity()
        &&& self.alerts.capacity() == self.trades.capacity()
    }

    /// What the invariant says, for callers that cannot see the fields: no
    /// more messages wait on a topic than the capacity allows.
    pub proof fn lemma_valid(&self, topic: Topic)
        requires
            self.valid(),
        ensures
            self.queued(topic).len() <= self.capacity(),
    {
        self.market_trades.lemma_valid();
        self.market_book.lemma_valid();
        self.anomalies.lemma_valid();
        self.alerts.lemma_valid();
        self.trades.lemma_valid();
    }

    /// Whether every topic is there, so that messages are taken.
    pub open spec fn ready(&self) -> bool {
        !self.setup().failed && self.setup().done >= 5
    }

    /// A producer with empty queues, whose topics are yet to be set up.
    pub fn new(capacity: usize, retry: RetryPolicy) -> (p: Self)
        ensures
            p.valid(),
            p.capacity() == capacity,
            p.retry() == retry,
            p.setup() == (TopicSetup { done: 0, failed: false }),
            forall|topic: Topic| p.queued(topic) == Seq::<Outgoing>::empty(),
    {
        BusProducer {
            setup: TopicSetup::new(),
            retry,
            market_trades: BoundedQueue::new(capacity),
            market_book: BoundedQueue::new(capacity),
            anomalies: BoundedQueue::new(capacity),
            alerts: BoundedQueue::new(capacity),
            trades: BoundedQueue::new(capacity),
        }
    }

    /// The topic to create next, if the setup is neither finished nor
    /// failed.
    pub fn next_topic(&self) -> (t: Option<Topic>)
        ensures
            t == next_topic_spec(self.setup()),
    {
        self.setup.next_topic()
    }

    /// Takes the answer to the creation of the next topic: no error, or the
    /// message of the error.
    pub fn topic_answered(&mut self, error: Option<&str>)
        requires
            old(self).valid(),
        ensures
            final(self).valid(),
            final(self).setup() == setup_after(
                old(self).setup(),
                create_outcome_spec(message_view(error)),
            ),
            final(self).retry() == old(self).retry(),
            final(self).capacity() == old(self).capacity(),
            forall|topic: Topic| final(self).queued(topic) == old(self).queued(topic),
    {
        self.setup.record(create_outcome(error));
    }

    /// Whether every topic is there.
    pub fn is_ready(&self) -> (r: bool)
        ensures
            r == self.ready(),
    {
        self.setup.is_complete()
    }

    /// Takes a message for its topic.  Before the topics are there nothing
    /// is taken.  A message for a topic whose queue is full is handed back, so
    /// that the caller waits and offers it again.
    pub fn publish(&mut self, message: Outgoing) -> (r: Result<(), (Refusal, Outgoing)>)
        requires
            old(self).valid(),
        ensures
            final(self).valid(),
            final(self).setup() == old(self).setup(),
            final(self).retry() == old(self).retry(),
            final(self).capacity() == old(self).capacity(),
            forall|topic: Topic|
                topic != message.topic ==> final(self).queued(topic) == old(self).queued(topic),
            match r {
                Ok(_) => {
                    &&& old(self).ready()
                    &&& old(self).queued(message.topic).len() < old(self).capacity()
                    &&& final(self).queued(message.topic) == old(self).queued(message.topic).push(
                        message,
                    )
                },
                Err((why, back)) => {
                    &&& back == message
                    &&& final(self).queued(message.topic) == old(self).queued(message.topic)
                    &&& why == if !old(self).ready() {
                        Refusal::NotReady
                    } else {
                        Refusal::Full
                    }
                    &&& old(self).ready() ==> old(self).queued(message.topic).len() >= old(
                        self,
                    ).capacity()
                },
            },
    {
        if !self.setup.is_complete() {
            return Err((Refusal::NotReady, message));
        }
        let offered = match message.topic {
            Topic::MarketTrades => self.market_trades.offer(message),
            Topic::MarketBook => self.market_book.offer(message),
            Topic::Anomalies => self.anomalies.offer(message),
            Topic::Alerts => self.alerts.offer(message),
            Topic::Trades => self.trades.offer(message),
        };
        match offered {
            Ok(()) => Ok(()),
            Err(back) => Err((Refusal::Full, back)),
        }
    }

    /// The message of a topic that has waited longest, if any waits.
    pub fn next_to_send(&mut self, topic: Topic) -> (r: Option<Outgoing>)
        requires
            old(self).valid(),
        ensures
            final(self).valid(),
            final(self).setup() == old(self).setup(),
            final(self).retry() == old(self).retry(),
            final(self).capacity() == old(self).capacity(),
            forall|other: Topic|
                other != topic ==> final(self).queued(other) == old(self).queued(other),
            final(self).queued(topic) == queue_after(
                old(self).queued(topic),
                old(self).capacity(),
                QueueOp::Take,
            ),
            match r {
                Some(message) => old(self).queued(topic).len() > 0 && message == old(self).queued(
                    topic,
                )[0],
                None => old(self).queued(topic).len() == 0,
            },
    {
        match topic {
            Topic::MarketTrades => self.market_trades.take(),
            Topic::MarketBook => self.market_book.take(),
            Topic::Anomalies => self.anomalies.take(),
            Topic::Alerts => self.alerts.take(),
            Topic::Trades => self.trades.take(),
        }
    }

    /// How many messages wait on a topic.
    pub fn waiting(&self, topic: Topic) -> (n: usize)
        ensures
            n == self.queued(topic).len(),
    {
        match topic {
            Topic::MarketTrades => self.market_trades.len(),
            Topic::MarketBook => self.market_book.len(),
            Topic::Anomalies => self.anomalies.len(),
            Topic::Alerts => self.alerts.len(),
            Topic::Trades => self.trades.len(),
        }
    }

    /// What to do after the `failures`-th try of a send failed.  `draw` is a
    /// random number out of 1000.
    pub fn after_failure(&self, failures: u32, draw: u64) -> (d: RetryDecision)
        ensures
            d == retry_spec(self.retry(), failures, draw),
            d matches RetryDecision::RetryAfter(ms) ==> ms <= self.retry().backoff.cap_ms,
    {
        self.retry.after_failure(failures, draw)
    }
}

} // verus!
