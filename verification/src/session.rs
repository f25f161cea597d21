//! The publish/subscribe session to the broker.
//!
//! The manager decides; the caller owns the transport. Each call takes
//! what the caller observed and answers with what the caller has to do
//! next. Outbound messages wait in a bounded queue and leave it only when
//! the transport has taken them, or when a newer message needs the room.

use crate::clock::{after_delay, elapsed_between, later, span};
use crate::config::{DEFAULT_KEEP_ALIVE_MS, DEFAULT_MAX_SESSION_ATTEMPTS};
use crate::message::{Message, MessageView, QoS};
use crate::network::NetworkState;
use crate::queue::{enqueued, OutboundQueue};
use crate::retry::{RetryBudget, RetryBudgetView};
use vstd::prelude::*;

verus! {

/// Why the broker could not be used.
#[derive(Clone, Copy, Debug, PartialEq, Eq, Structural)]
pub enum SessionError {
    ConnectFailed,
    ConnectionLost,
    PublishFailed,
}

/// The guarantee that a subscription asked for and that the session does
/// not offer.
#[derive(Clone, Copy, Debug, PartialEq, Eq, Structural)]
pub struct UnsupportedQoSError {
    pub qos: QoS,
}

/// State of the session.
#[derive(Clone, Copy, Debug, PartialEq, Eq, Structural)]
pub enum SessionState {
    Idle,
    Connecting,
    Active,
    Reconnecting,
    Failed(SessionError),
}

/// What the caller has to do after a call to the manager.
#[derive(Clone, Copy, Debug, PartialEq, Eq, Structural)]
pub enum SessionAction {
    /// Nothing is due.
    Nothing,
    /// Start one connection attempt and report its outcome.
    Connect,
    /// Hand the oldest queued message to the transport and report whether
    /// it was taken, before any other call.
    Transmit,
    /// Send a liveness signal to the broker.
    KeepAlive,
}

/// Parameters of one session.
#[derive(Clone, Copy, Debug, PartialEq, Eq, Structural)]
pub struct SessionConfig {
    /// Interval within which the broker expects a sign of life.
    pub keep_alive_ms: u64,
    /// Consecutive failures after which the session gives up.
    pub max_attempts: u32,
}

/// What the manager stands for.
pub struct SessionView {
    pub state: SessionState,
    /// Whether a reconnection attempt is under way.
    pub attempting: bool,
    pub config: SessionConfig,
    pub budget: RetryBudgetView,
    /// While `Reconnecting`, the time of the next attempt; while `Failed`,
    /// the time from which the session should be opened again.
    pub retry_at_ms: u64,
    /// The time at which the broker last heard from this device.
    pub last_activity_ms: u64,
    pub queue: Seq<MessageView>,
    pub queue_capacity: nat,
    pub subscriptions: Seq<(Seq<char>, QoS)>,
}

/// The session given up or put back to wait: `Idle`, with a clean budget.
pub open spec fn session_idle(before: SessionView) -> SessionView {
    SessionView {
        state: SessionState::Idle,
        attempting: false,
        budget: before.budget.after_success(),
        ..before
    }
}

/// Opening the session. Without a connected network nothing happens at
/// all. With it, an idle or failed session starts connecting with a clean
/// budget; any other session is left alone.
pub open spec fn session_open(
    before: SessionView,
    config: SessionConfig,
    network: NetworkState,
) -> (SessionView, SessionAction) {
    if network != NetworkState::Connected {
        (before, SessionAction::Nothing)
    } else {
        match before.state {
            SessionState::Idle | SessionState::Failed(_) => (
                SessionView {
                    state: SessionState::Connecting,
                    attempting: false,
                    config,
                    budget: before.budget.after_success(),
                    ..before
                },
                SessionAction::Connect,
            ),
            _ => (before, SessionAction::Nothing),
        }
    }
}

/// Whether the manager waits for the outcome of a connection attempt.
pub open spec fn attempt_under_way(view: SessionView) -> bool {
    view.state == SessionState::Connecting || (view.state == SessionState::Reconnecting
        && view.attempting)
}

/// The session after the broker was lost or an attempt failed with
/// `reason`: the failure is counted against the budget unless the session
/// was active; a budget at its limit fails the session, otherwise the next
/// attempt is due when the budget's delay has passed.
pub open spec fn session_after_failure(
    before: SessionView,
    counted: bool,
    reason: SessionError,
    now_ms: u64,
    entropy: u64,
) -> SessionView {
    let budget = if counted {
        before.budget.after_failure()
    } else {
        before.budget
    };
    if counted && budget.failures >= before.config.max_attempts {
        SessionView {
            state: SessionState::Failed(reason),
            attempting: false,
            budget,
            retry_at_ms: later(now_ms, budget.cap),
            ..before
        }
    } else {
        SessionView {
            state: SessionState::Reconnecting,
            attempting: false,
            budget,
            retry_at_ms: budget.deadline(now_ms, entropy),
            ..before
        }
    }
}

/// The outcome of the attempt under way. A report without an attempt
/// under way changes nothing.
pub open spec fn session_connect_finished(
    before: SessionView,
    outcome: Result<(), SessionError>,
    now_ms: u64,
    entropy: u64,
) -> SessionView {
    if !attempt_under_way(before) {
        before
    } else {
        match outcome {
            Ok(_) => SessionView {
                state: SessionState::Active,
                attempting: false,
                budget: before.budget.after_success(),
                last_activity_ms: now_ms,
                ..before
            },
            Err(reason) => session_after_failure(before, true, reason, now_ms, entropy),
        }
    }
}

/// The broker dropped an active session: it reconnects, the first attempt
/// after the base delay. Any other session is left alone.
pub open spec fn session_connection_lost(
    before: SessionView,
    now_ms: u64,
    entropy: u64,
) -> SessionView {
    if before.state == SessionState::Active {
        session_after_failure(before, false, SessionError::ConnectionLost, now_ms, entropy)
    } else {
        before
    }
}

/// The transport took the oldest message, or failed to. A taken message
/// leaves the queue; a failure is a lost broker, and the message stays.
pub open spec fn session_transmit_finished(
    before: SessionView,
    delivered: bool,
    now_ms: u64,
    entropy: u64,
) -> SessionView {
    if before.state != SessionState::Active || before.queue.len() == 0 {
        before
    } else if delivered {
        SessionView { queue: before.queue.skip(1), last_activity_ms: now_ms, ..before }
    } else {
        session_after_failure(before, false, SessionError::PublishFailed, now_ms, entropy)
    }
}

/// Whether the broker has to hear from the device now: half of the
/// keep-alive interval has passed since it last did.
pub open spec fn keep_alive_due(view: SessionView, now_ms: u64) -> bool {
    span(view.last_activity_ms, now_ms) >= view.config.keep_alive_ms / 2
}

/// One tick. Without a connected network the session goes back to `Idle`.
/// With it, an active session sends what is queued, oldest first, and a
/// sign of life when it is due; a reconnecting session starts the next
/// attempt when it is due and none is under way; a failed session waits
/// to be opened.
pub open spec fn session_poll(before: SessionView, network: NetworkState, now_ms: u64) -> (
    SessionView,
    SessionAction,
) {
    if network != NetworkState::Connected {
        if before.state == SessionState::Idle {
            (before, SessionAction::Nothing)
        } else {
            (session_idle(before), SessionAction::Nothing)
        }
    } else {
        match before.state {
            SessionState::Active => if before.queue.len() > 0 {
                (before, SessionAction::Transmit)
            } else if keep_alive_due(before, now_ms) {
                (SessionView { last_activity_ms: now_ms, ..before }, SessionAction::KeepAlive)
            } else {
                (before, SessionAction::Nothing)
            },
            SessionState::Reconnecting => if !before.attempting && now_ms >= before.retry_at_ms {
                (SessionView { attempting: true, ..before }, SessionAction::Connect)
            } else {
                (before, SessionAction::Nothing)
            },
            _ => (before, SessionAction::Nothing),
        }
    }
}

/// Publishing: the message joins the queue, whatever the state.
pub open spec fn session_publish(before: SessionView, message: MessageView) -> SessionView {
    SessionView { queue: enqueued(before.queue, before.queue_capacity, message), ..before }
}

/// Subscribing with a guarantee that the session offers: the topic is
/// registered.
pub open spec fn session_subscribe(before: SessionView, topic: Seq<char>, qos: QoS) -> SessionView {
    SessionView { subscriptions: before.subscriptions.push((topic, qos)), ..before }
}

/// One call to the manager, with what the caller passes in.
pub enum SessionEvent {
    Open { config: SessionConfig, network: NetworkState },
    Poll { network: NetworkState, now_ms: u64 },
    ConnectFinished { outcome: Result<(), SessionError>, now_ms: u64, entropy: u64 },
    ConnectionLost { now_ms: u64, entropy: u64 },
    TransmitFinished { delivered: bool, now_ms: u64, entropy: u64 },
    Publish { message: MessageView },
    Subscribe { topic: Seq<char>, qos: QoS },
}

/// The session after one call, and what the call asks of the caller.
pub open spec fn session_apply(before: SessionView, event: SessionEvent) -> (
    SessionView,
    SessionAction,
) {
    match event {
        SessionEvent::Open { config, network } => session_open(before, config, network),
        SessionEvent::Poll { network, now_ms } => session_poll(before, network, now_ms),
        SessionEvent::ConnectFinished { outcome, now_ms, entropy } => (
            session_connect_finished(before, outcome, now_ms, entropy),
            SessionAction::Nothing,
        ),
        SessionEvent::ConnectionLost { now_ms, entropy } => (
            session_connection_lost(before, now_ms, entropy),
            SessionAction::Nothing,
        ),
        SessionEvent::TransmitFinished { delivered, now_ms, entropy } => (
            session_transmit_finished(before, delivered, now_ms, entropy),
            SessionAction::Nothing,
        ),
        SessionEvent::Publish { message } => (
            session_publish(before, message),
            SessionAction::Nothing,
        ),
        SessionEvent::Subscribe { topic, qos } => (
            if qos.supported() {
                session_subscribe(before, topic, qos)
            } else {
                before
            },
            SessionAction::Nothing,
        ),
    }
}

/// The session after a series of calls, and what each call asked for.
pub open spec fn session_run(start: SessionView, events: Seq<SessionEvent>) -> (
    SessionView,
    Seq<SessionAction>,
)
    decreases events.len(),
{
    if events.len() == 0 {
        (start, Seq::empty())
    } else {
        let (middle, earlier) = session_run(start, events.drop_last());
        let (end, action) = session_apply(middle, events.last());
        (end, earlier.push(action))
    }
}

/// Whether the call opens the session while the network is connected.
pub open spec fn opens_on_network(event: SessionEvent) -> bool {
    event matches SessionEvent::Open { network, .. } && network == NetworkState::Connected
}

/// An idle session stays idle, and asks for nothing, under every call but
/// an `open` while the network is connected.
pub proof fn lemma_idle_needs_network(before: SessionView, event: SessionEvent)
    requires
        before.state == SessionState::Idle,
        !opens_on_network(event),
    ensures
        session_apply(before, event).0.state == SessionState::Idle,
        session_apply(before, event).1 == SessionAction::Nothing,
{
}

/// However calls are interleaved, a session that starts idle is idle
/// after them, and none of them asked for anything, unless one of them is
/// an `open` while the network is connected.
pub proof fn lemma_idle_through(start: SessionView, events: Seq<SessionEvent>)
    requires
        start.state == SessionState::Idle,
        forall|i: int| 0 <= i < events.len() ==> !opens_on_network(#[trigger] events[i]),
    ensures
        session_run(start, events).0.state == SessionState::Idle,
        session_run(start, events).1.len() == events.len(),
        forall|i: int|
            0 <= i < events.len() ==> #[trigger] session_run(start, events).1[i]
                == SessionAction::Nothing,
    decreases events.len(),
{
    if events.len() > 0 {
        lemma_idle_through(start, events.drop_last());
        let middle = session_run(start, events.drop_last()).0;
        assert(!opens_on_network(events[events.len() - 1]));
        lemma_idle_needs_network(middle, events.last());
    }
}

/// A failed session asks for no connection attempt until it is opened: it
/// stays failed, or goes back to idle when the network is lost.
pub proof fn lemma_failed_waits_for_open(before: SessionView, event: SessionEvent)
    requires
        before.state is Failed,
        !(event is Open),
    ensures
        session_apply(before, event).1 == SessionAction::Nothing,
        session_apply(before, event).0.state == before.state || session_apply(
            before,
            event,
        ).0.state == SessionState::Idle,
{
}

/// However calls are interleaved, a session that starts failed or idle
/// asks for no connection attempt until it is opened.
pub proof fn lemma_no_attempt_before_open(start: SessionView, events: Seq<SessionEvent>)
    requires
        start.state is Failed || start.state == SessionState::Idle,
        forall|i: int| 0 <= i < events.len() ==> !(#[trigger] events[i] is Open),
    ensures
        session_run(start, events).0.state is Failed || session_run(start, events).0.state
            == SessionState::Idle,
        session_run(start, events).1.len() == events.len(),
        forall|i: int|
            0 <= i < events.len() ==> #[trigger] session_run(start, events).1[i]
                == SessionAction::Nothing,
    decreases events.len(),
{
    if events.len() > 0 {
        lemma_no_attempt_before_open(start, events.drop_last());
        let middle = session_run(start, events.drop_last()).0;
        assert(!(events[events.len() - 1] is Open));
        if middle.state is Failed {
            lemma_failed_waits_for_open(middle, events.last());
        } else {
            lemma_idle_needs_network(middle, events.last());
        }
    }
}

/// Attempts are bounded: every failed attempt is counted, and the attempt
/// that brings the count to the limit fails the session; before that the
/// session waits for the next attempt, which is due no earlier than now.
pub proof fn lemma_attempts_are_bounded(
    before: SessionView,
    reason: SessionError,
    now_ms: u64,
    entropy: u64,
)
    requires
        attempt_under_way(before),
        before.budget.failures < u32::MAX,
    ensures
        ({
            let after = session_connect_finished(before, Err(reason), now_ms, entropy);
            &&& after.budget.failures == before.budget.failures + 1
            &&& after.state == SessionState::Failed(reason) <==> before.budget.failures + 1
                >= before.config.max_attempts
            &&& after.state == SessionState::Reconnecting <==> before.budget.failures + 1
                < before.config.max_attempts
            &&& !after.attempting
            &&& after.retry_at_ms >= now_ms
            &&& after.queue == before.queue
        }),
{
}

/// The broker hears from an active session in time: when ticks are no
/// further apart than half of the keep-alive interval, then at the next
/// tick less than the interval has passed since the last sign of life,
/// also when no message is queued.
pub proof fn lemma_sign_of_life_in_time(before: SessionView, now_ms: u64, next_ms: u64)
    requires
        before.state == SessionState::Active,
        before.queue.len() == 0,
        0 < before.config.keep_alive_ms,
        now_ms <= next_ms,
        next_ms - now_ms <= before.config.keep_alive_ms / 2,
    ensures
        ({
            let (after, action) = session_poll(before, NetworkState::Connected, now_ms);
            &&& action == SessionAction::KeepAlive <==> keep_alive_due(before, now_ms)
            &&& action == SessionAction::KeepAlive ==> after.last_activity_ms == now_ms
            &&& span(after.last_activity_ms, next_ms) < before.config.keep_alive_ms
        }),
{
}

/// No call lets the queue grow beyond its capacity, and none changes the
/// capacity.
pub proof fn lemma_queue_within_capacity(before: SessionView, event: SessionEvent)
    requires
        before.queue.len() <= before.queue_capacity,
        0 < before.queue_capacity,
    ensures
        session_apply(before, event).0.queue_capacity == before.queue_capacity,
        session_apply(before, event).0.queue.len() <= before.queue_capacity,
{
}

/// Whether the call reports that the transport took a message.
pub open spec fn reports_delivery(event: SessionEvent) -> bool {
    event matches SessionEvent::TransmitFinished { delivered, .. } && delivered
}

/// Queued messages stay queued, in their order, whatever happens to
/// network and session: only a delivery or a newer message in a full
/// queue takes the oldest one out.
pub proof fn lemma_queue_kept(before: SessionView, event: SessionEvent)
    ensures
        !(event is Publish) && !reports_delivery(event) ==> session_apply(before, event).0.queue
            == before.queue,
        event matches SessionEvent::Publish { message } ==> session_apply(before, event).0.queue
            == enqueued(before.queue, before.queue_capacity, message),
        session_apply(before, event).0.queue != before.queue && !(event is Publish)
            ==> session_apply(before, event).0.queue == before.queue.skip(1),
{
}

/// One registered interest in a topic.
#[derive(Clone, Debug, PartialEq, Eq)]
pub struct Subscription {
    topic: String,
    qos: QoS,
}

impl View for Subscription {
    type V = (Seq<char>, QoS);

    closed spec fn view(&self) -> (Seq<char>, QoS) {
        (self.topic@, self.qos)
    }
}

impl Subscription {
    /// The topic.
    pub fn topic(&self) -> (topic: &String)
        ensures
            topic@ == self@.0,
    {
        &self.topic
    }

    /// The guarantee asked for.
    pub fn qos(&self) -> (qos: QoS)
        ensures
            qos == self@.1,
    {
        self.qos
    }
}

/// What a list of subscriptions stands for.
pub open spec fn subscription_views(subscriptions: Seq<Subscription>) -> Seq<(Seq<char>, QoS)> {
    subscriptions.map_values(|s: Subscription| s@)
}

/// Manager of the broker session and owner of the outbound queue.
pub struct SessionManager {
    state: SessionState,
    attempting: bool,
    config: SessionConfig,
    budget: RetryBudget,
    retry_at_ms: u64,
    last_activity_ms: u64,
    queue: OutboundQueue,
    subscriptions: Vec<Subscription>,
}

impl View for SessionManager {
    type V = SessionView;

    closed spec fn view(&self) -> SessionView {
        SessionView {
            state: self.state,
            attempting: self.attempting,
            config: self.config,
            budget: self.budget@,
            retry_at_ms: self.retry_at_ms,
            last_activity_ms: self.last_activity_ms,
            queue: self.queue@,
            queue_capacity: self.queue.capacity_spec(),
            subscriptions: subscription_views(self.subscriptions@),
        }
    }
}

impl SessionConfig {
    /// The default keep-alive interval and attempt limit.
    pub fn with_defaults() -> (config: SessionConfig)
        ensures
            config == (SessionConfig {
                keep_alive_ms: DEFAULT_KEEP_ALIVE_MS,
                max_attempts: DEFAULT_MAX_SESSION_ATTEMPTS,
            }),
    {
        SessionConfig {
            keep_alive_ms: DEFAULT_KEEP_ALIVE_MS,
            max_attempts: DEFAULT_MAX_SESSION_ATTEMPTS,
        }
    }
}

impl SessionManager {
    /// An idle session with the default parameters, the given queue and no
    /// subscriptions.
    pub fn new(budget: RetryBudget, queue: OutboundQueue) -> (manager: SessionManager)
        ensures
            manager@ == (SessionView {
                state: SessionState::Idle,
                attempting: false,
                config: SessionConfig {
                    keep_alive_ms: DEFAULT_KEEP_ALIVE_MS,
                    max_attempts: DEFAULT_MAX_SESSION_ATTEMPTS,
                },
                budget: budget@,
                retry_at_ms: 0,
                last_activity_ms: 0,
                queue: queue@,
                queue_capacity: queue.capacity_spec(),
                subscriptions: Seq::empty(),
            }),
    {
        SessionManager::with_config(SessionConfig::with_defaults(), budget, queue)
    }

    /// An idle session with the given parameters and queue and no
    /// subscriptions.
    pub fn with_config(
        config: SessionConfig,
        budget: RetryBudget,
        queue: OutboundQueue,
    ) -> (manager: SessionManager)
        ensures
            manager@ == (SessionView {
                state: SessionState::Idle,
                attempting: false,
                config,
                budget: budget@,
                retry_at_ms: 0,
                last_activity_ms: 0,
                queue: queue@,
                queue_capacity: queue.capacity_spec(),
                subscriptions: Seq::empty(),
            }),
    {
        let manager = SessionManager {
            state: SessionState::Idle,
            attempting: false,
            config,
            budget,
            retry_at_ms: 0,
            last_activity_ms: 0,
            queue,
            subscriptions: Vec::new(),
        };
        assert(manager@.subscriptions =~= Seq::empty());
        manager
    }

    /// An idle session with the default budget and queue capacity.
    pub fn with_defaults() -> (manager: SessionManager)
        ensures
            manager@.state == SessionState::Idle,
            !manager@.attempting,
            manager@.config == (SessionConfig {
                keep_alive_ms: DEFAULT_KEEP_ALIVE_MS,
                max_attempts: DEFAULT_MAX_SESSION_ATTEMPTS,
            }),
            manager@.budget.failures == 0,
            manager@.budget.base == crate::retry::DEFAULT_BASE_DELAY_MS,
            manager@.budget.cap == crate::retry::DEFAULT_CAP_DELAY_MS,
            manager@.queue == Seq::<MessageView>::empty(),
            manager@.queue_capacity == crate::queue::DEFAULT_QUEUE_CAPACITY,
            manager@.subscriptions == Seq::<(Seq<char>, QoS)>::empty(),
    {
        SessionManager::new(RetryBudget::with_defaults(), OutboundQueue::with_default_capacity())
    }

    /// The state of the session. Nothing changes.
    pub fn status(&self) -> (state: SessionState)
        ensures
            state == self@.state,
    {
        self.state
    }

    /// Whether the session is active.
    pub fn is_active(&self) -> (active: bool)
        ensures
            active == (self@.state == SessionState::Active),
    {
        match self.state {
            SessionState::Active => true,
            _ => false,
        }
    }

    /// The parameters of the session.
    pub fn config(&self) -> (config: SessionConfig)
        ensures
            config == self@.config,
    {
        self.config
    }

    /// The retry budget.
    pub fn budget(&self) -> (budget: &RetryBudget)
        ensures
            budget@ == self@.budget,
    {
        &self.budget
    }

    /// The time of the next attempt, or from which a failed session should
    /// be opened again.
    pub fn retry_at_ms(&self) -> (at: u64)
        ensures
            at == self@.retry_at_ms,
    {
        self.retry_at_ms
    }

    /// The number of queued messages, never above the capacity.
    pub fn queued(&self) -> (len: usize)
        ensures
            len == self@.queue.len(),
            len <= self@.queue_capacity,
    {
        self.queue.len()
    }

    /// The capacity of the queue.
    pub fn queue_capacity(&self) -> (capacity: usize)
        ensures
            capacity == self@.queue_capacity,
            self@.queue.len() <= capacity,
    {
        self.queue.capacity()
    }

    /// The oldest queued message: the one that `Transmit` asks to send.
    pub fn next_outbound(&self) -> (message: Option<&Message>)
        ensures
            message is Some <==> self@.queue.len() > 0,
            message matches Some(m) ==> m@ == self@.queue[0],
    {
        self.queue.front()
    }

    /// The registered subscriptions, oldest first.
    pub fn subscriptions(&self) -> (subscriptions: &Vec<Subscription>)
        ensures
            subscription_views(subscriptions@) == self@.subscriptions,
    {
        &self.subscriptions
    }

    /// Opens the session if the network is connected; `network` is the
    /// state that the link supervisor reports.
    pub fn open(&mut self, session_config: SessionConfig, network: NetworkState) -> (action:
        SessionAction)
        ensures
            (final(self)@, action) == session_open(old(self)@, session_config, network),
            network != NetworkState::Connected ==> final(self)@ == old(self)@,
    {
        match network {
            NetworkState::Connected => {},
            _ => {
                return SessionAction::Nothing;
            },
        }
        match self.state {
            SessionState::Idle | SessionState::Failed(_) => {
                self.budget.reset();
                self.config = session_config;
                self.attempting = false;
                self.state = SessionState::Connecting;
                SessionAction::Connect
            },
            _ => SessionAction::Nothing,
        }
    }

    /// Moves on after a lost broker or a failed attempt.
    fn fail(&mut self, counted: bool, reason: SessionError, now_ms: u64, entropy: u64)
        ensures
            final(self)@ == session_after_failure(old(self)@, counted, reason, now_ms, entropy),
    {
        if counted {
            self.budget.record_failure();
        }
        self.attempting = false;
        if counted && self.budget.failures() >= self.config.max_attempts {
            self.retry_at_ms = after_delay(now_ms, self.budget.cap_ms());
            self.state = SessionState::Failed(reason);
        } else {
            self.retry_at_ms = self.budget.deadline_after(now_ms, entropy);
            self.state = SessionState::Reconnecting;
        }
    }

    /// Reports how the connection attempt under way ended and returns the
    /// state that follows.
    pub fn connect_finished(
        &mut self,
        outcome: Result<(), SessionError>,
        now_ms: u64,
        entropy: u64,
    ) -> (state: SessionState)
        ensures
            final(self)@ == session_connect_finished(old(self)@, outcome, now_ms, entropy),
            state == final(self)@.state,
    {
        let under_way = match self.state {
            SessionState::Connecting => true,
            SessionState::Reconnecting => self.attempting,
            _ => false,
        };
        if under_way {
            match outcome {
                Ok(_) => {
                    self.budget.reset();
                    self.attempting = false;
                    self.last_activity_ms = now_ms;
                    self.state = SessionState::Active;
                },
                Err(reason) => {
                    self.fail(true, reason, now_ms, entropy);
                },
            }
        }
        self.state
    }

    /// Reports that the broker dropped the session.
    pub fn connection_lost(&mut self, now_ms: u64, entropy: u64) -> (state: SessionState)
        ensures
            final(self)@ == session_connection_lost(old(self)@, now_ms, entropy),
            state == final(self)@.state,
    {
        match self.state {
            SessionState::Active => {
                self.fail(false, SessionError::ConnectionLost, now_ms, entropy);
            },
            _ => {},
        }
        self.state
    }

    /// Reports whether the transport took the oldest queued message, and
    /// hands that message back once it has left the queue.
    pub fn transmit_finished(
        &mut self,
        delivered: bool,
        now_ms: u64,
        entropy: u64,
    ) -> (sent: Option<Message>)
        ensures
            final(self)@ == session_transmit_finished(old(self)@, delivered, now_ms, entropy),
            sent is Some <==> old(self)@.state == SessionState::Active && old(self)@.queue.len() > 0
                && delivered,
            sent matches Some(m) ==> m@ == old(self)@.queue[0],
    {
        match self.state {
            SessionState::Active => {},
            _ => {
                return None;
            },
        }
        if self.queue.is_empty() {
            return None;
        }
        if delivered {
            self.last_activity_ms = now_ms;
            self.queue.dequeue()
        } else {
            self.fail(false, SessionError::PublishFailed, now_ms, entropy);
            None
        }
    }

    /// One tick of the manager; `network` is the state that the link
    /// supervisor reports at `now_ms`.
    pub fn poll(&mut self, network: NetworkState, now_ms: u64) -> (action: SessionAction)
        ensures
            (final(self)@, action) == session_poll(old(self)@, network, now_ms),
    {
        match network {
            NetworkState::Connected => {},
            _ => {
                match self.state {
                    SessionState::Idle => {},
                    _ => {
                        self.budget.reset();
                        self.attempting = false;
                        self.state = SessionState::Idle;
                    },
                }
                return SessionAction::Nothing;
            },
        }
        match self.state {
            SessionState::Active => {
                if !self.queue.is_empty() {
                    SessionAction::Transmit
                } else if elapsed_between(self.last_activity_ms, now_ms)
                    >= self.config.keep_alive_ms / 2 {
                    self.last_activity_ms = now_ms;
                    SessionAction::KeepAlive
                } else {
                    SessionAction::Nothing
                }
            },
            SessionState::Reconnecting => {
                if !self.attempting && now_ms >= self.retry_at_ms {
                    self.attempting = true;
                    SessionAction::Connect
                } else {
                    SessionAction::Nothing
                }
            },
            _ => SessionAction::Nothing,
        }
    }

    /// Queues `message` for the broker. It waits there whatever the state
    /// of network and session; only a full queue drops its oldest entry,
    /// which is handed back.
    pub fn publish(&mut self, message: Message) -> (dropped: Option<Message>)
        ensures
            final(self)@ == session_publish(old(self)@, message@),
            final(self)@.queue.len() <= final(self)@.queue_capacity,
            dropped is Some <==> old(self)@.queue.len() == old(self)@.queue_capacity,
            dropped matches Some(d) ==> d@ == old(self)@.queue[0],
    {
        self.queue.enqueue(message)
    }

    /// Registers interest in `topic`. `ExactlyOnce` is refused, and then
    /// nothing changes.
    pub fn subscribe(&mut self, topic: String, qos: QoS) -> (registered: Result<
        (),
        UnsupportedQoSError,
    >)
        ensures
            registered is Ok <==> qos.supported(),
            registered is Ok ==> final(self)@ == session_subscribe(old(self)@, topic@, qos),
            registered matches Err(e) ==> e.qos == qos && final(self)@ == old(self)@,
    {
        if !qos.is_supported() {
            return Err(UnsupportedQoSError { qos });
        }
        self.subscriptions.push(Subscription { topic, qos });
        assert(self@.subscriptions =~= old(self)@.subscriptions.push((topic@, qos)));
        Ok(())
    }
}

} // verus!
