//! The cooperative tick that drives all components.
//!
//! One tick polls the link supervisor and the session manager, samples the
//! button, queues what the button and the command bridge produced, and
//! says how long the caller may sleep. The caller performs what the plan
//! asks for and reports the outcomes to the components.

use crate::clock::{elapsed_between, later, span};
use crate::config::DEFAULT_WATCHDOG_PERIOD_MS;
use crate::input::{step, InputClassifier, InputSnapshot, InputTiming, PressEvent, Sample};
use crate::message::{Message, MessageView, QoS};
use crate::network::{
    network_poll, NetworkAction, NetworkState, NetworkSupervisor, NetworkView,
};
use crate::queue::OutboundQueue;
use crate::session::{
    session_open, session_poll, session_publish, SessionAction, SessionConfig, SessionManager,
    SessionState, SessionView,
};
use vstd::prelude::*;
use vstd::slice::slice_to_vec;

verus! {

/// Default time that the loop sleeps at the end of a tick, in
/// milliseconds.
pub const DEFAULT_TICK_INTERVAL_MS: u64 = 10;

/// Payload of the message that reports a short press.
pub const SHORT_PRESS_TEXT: &'static str = "Button Pressed";

/// Payload of the message that reports a long press.
pub const LONG_PRESS_TEXT: &'static str = "Button Long Pressed";

/// What the caller observed at the start of a tick.
#[derive(Clone, Copy, Debug, PartialEq, Eq, Structural)]
pub struct TickInput {
    /// Reading of the monotonic clock.
    pub now_ms: u64,
    /// Whether the radio reports the link as up.
    pub link_up: bool,
    /// Whether the button's level is asserted.
    pub raw_level: bool,
    /// A fresh random number for the jitter.
    pub entropy: u64,
}

/// What the caller has to do at the end of a tick.
#[derive(Clone, Copy, Debug, PartialEq, Eq, Structural)]
pub struct TickPlan {
    pub network: NetworkAction,
    pub session: SessionAction,
    /// The press that this tick completed and queued, if any.
    pub event: Option<PressEvent>,
    /// How long to yield before the next tick.
    pub sleep_ms: u64,
}

/// The loop did not yield within the watchdog period. Nothing in the
/// process can mend that: the device has to restart.
#[derive(Clone, Copy, Debug, PartialEq, Eq, Structural)]
pub struct WatchdogViolation {
    /// Time since the loop last yielded.
    pub stalled_ms: u64,
}

/// What the loop stands for.
pub struct EventLoopView {
    pub watchdog_period_ms: u64,
    pub tick_interval_ms: u64,
    pub last_yield_ms: u64,
    pub session_config: SessionConfig,
    pub event_topic: Seq<char>,
}

/// Whether more than the watchdog period has passed since the loop last
/// yielded.
pub open spec fn stalled(view: EventLoopView, now_ms: u64) -> bool {
    span(view.last_yield_ms, now_ms) > view.watchdog_period_ms
}

/// How long the loop yields at the end of a tick: the tick interval, but
/// never more than the watchdog period.
pub open spec fn yield_interval(view: EventLoopView) -> u64 {
    if view.tick_interval_ms <= view.watchdog_period_ms {
        view.tick_interval_ms
    } else {
        view.watchdog_period_ms
    }
}

/// Whether the loop opens the session in this tick: the network is
/// connected and the session is idle, or failed and due to be tried again.
pub open spec fn opening_due(session: SessionView, network: NetworkState, now_ms: u64) -> bool {
    network == NetworkState::Connected && (session.state == SessionState::Idle || (session.state
        is Failed && now_ms >= session.retry_at_ms))
}

/// The session's part of a tick: an opening where one is due, else a poll.
pub open spec fn session_tick(
    before: SessionView,
    config: SessionConfig,
    network: NetworkState,
    now_ms: u64,
) -> (SessionView, SessionAction) {
    if opening_due(before, network, now_ms) {
        session_open(before, config, network)
    } else {
        session_poll(before, network, now_ms)
    }
}

/// The text that reports `event`.
pub open spec fn press_text(event: PressEvent) -> Seq<char> {
    match event {
        PressEvent::ShortPress => SHORT_PRESS_TEXT@,
        PressEvent::LongPress => LONG_PRESS_TEXT@,
    }
}

/// The message that reports `event` on `topic`.
pub open spec fn press_message(topic: Seq<char>, event: PressEvent) -> MessageView {
    MessageView {
        topic,
        payload: vstd::utf8::encode_utf8(press_text(event)),
        qos: QoS::AtLeastOnce,
    }
}

/// The session after the press of this tick, if there was one, is queued.
pub open spec fn session_after_press(
    before: SessionView,
    topic: Seq<char>,
    event: Option<PressEvent>,
) -> SessionView {
    match event {
        Some(e) => session_publish(before, press_message(topic, e)),
        None => before,
    }
}

/// The session after `messages` are published, first to last.
pub open spec fn publish_all(before: SessionView, messages: Seq<MessageView>) -> SessionView
    decreases messages.len(),
{
    if messages.len() == 0 {
        before
    } else {
        publish_all(session_publish(before, messages[0]), messages.skip(1))
    }
}

/// Everything that a tick reads and changes.
pub struct TickState {
    pub event_loop: EventLoopView,
    pub network: NetworkView,
    pub session: SessionView,
    pub input: InputSnapshot,
    /// The messages that the command bridge handed off, oldest first.
    pub inbound: Seq<MessageView>,
}

/// One tick: the state after it, and the plan for the caller.
///
/// A tick that comes later than the watchdog period after the last yield
/// is refused, and nothing changes. Otherwise the link supervisor is
/// polled; the session is opened where that is due and polled where it is
/// not; the button is sampled and a completed press is queued for the
/// broker; the handed-off messages are queued after it; and the loop
/// counts as yielding now.
pub open spec fn tick_step(before: TickState, timing: InputTiming, observed: TickInput) -> (
    TickState,
    Result<TickPlan, WatchdogViolation>,
) {
    if stalled(before.event_loop, observed.now_ms) {
        (
            before,
            Err(
                WatchdogViolation {
                    stalled_ms: span(before.event_loop.last_yield_ms, observed.now_ms) as u64,
                },
            ),
        )
    } else {
        let (network, network_action) = network_poll(
            before.network,
            observed.link_up,
            observed.now_ms,
            observed.entropy,
        );
        let (polled, session_action) = session_tick(
            before.session,
            before.event_loop.session_config,
            network.state,
            observed.now_ms,
        );
        let (input, event) = step(
            timing,
            before.input,
            Sample { asserted: observed.raw_level, at_ms: observed.now_ms },
        );
        (
            TickState {
                event_loop: EventLoopView { last_yield_ms: observed.now_ms, ..before.event_loop },
                network,
                session: publish_all(
                    session_after_press(polled, before.event_loop.event_topic, event),
                    before.inbound,
                ),
                input,
                inbound: Seq::empty(),
            },
            Ok(
                TickPlan {
                    network: network_action,
                    session: session_action,
                    event,
                    sleep_ms: yield_interval(before.event_loop),
                },
            ),
        )
    }
}

/// Publishing never changes the state of the session, nor anything but
/// its queue, which stays within its capacity.
pub proof fn lemma_publish_all_keeps_state(before: SessionView, messages: Seq<MessageView>)
    requires
        before.queue.len() <= before.queue_capacity,
        0 < before.queue_capacity,
    ensures
        publish_all(before, messages) == (SessionView {
            queue: publish_all(before, messages).queue,
            ..before
        }),
        publish_all(before, messages).queue.len() <= before.queue_capacity,
    decreases messages.len(),
{
    if messages.len() > 0 {
        lemma_publish_all_keeps_state(session_publish(before, messages[0]), messages.skip(1));
    }
}

/// Every tick that is not refused tells the caller to yield for no longer
/// than the watchdog period, so that a caller who ticks again right after
/// the yield is never refused for the time it slept.
pub proof fn lemma_tick_yields_in_time(before: TickState, timing: InputTiming, observed: TickInput)
    ensures
        tick_step(before, timing, observed).1 matches Ok(plan) ==> plan.sleep_ms
            <= before.event_loop.watchdog_period_ms && !stalled(
            tick_step(before, timing, observed).0.event_loop,
            later(observed.now_ms, plan.sleep_ms as nat),
        ),
        tick_step(before, timing, observed).1 is Err <==> stalled(
            before.event_loop,
            observed.now_ms,
        ),
        tick_step(before, timing, observed).1 is Err ==> tick_step(before, timing, observed).0
            == before,
{
}

/// A tick leaves an idle session idle unless the network is connected
/// after the supervisor's poll.
pub proof fn lemma_tick_keeps_idle_without_network(
    before: TickState,
    timing: InputTiming,
    observed: TickInput,
)
    requires
        before.session.state == SessionState::Idle,
        before.session.queue.len() <= before.session.queue_capacity,
        0 < before.session.queue_capacity,
        tick_step(before, timing, observed).0.network.state != NetworkState::Connected,
    ensures
        tick_step(before, timing, observed).0.session.state == SessionState::Idle,
        tick_step(before, timing, observed).1 matches Ok(plan) ==> plan.session
            == SessionAction::Nothing,
{
    if !stalled(before.event_loop, observed.now_ms) {
        let network = network_poll(
            before.network,
            observed.link_up,
            observed.now_ms,
            observed.entropy,
        ).0;
        let polled = session_tick(
            before.session,
            before.event_loop.session_config,
            network.state,
            observed.now_ms,
        ).0;
        let event = step(
            timing,
            before.input,
            Sample { asserted: observed.raw_level, at_ms: observed.now_ms },
        ).1;
        let pressed = session_after_press(polled, before.event_loop.event_topic, event);
        lemma_publish_all_keeps_state(pressed, before.inbound);
    }
}

/// Driver of the components and keeper of the watchdog deadline.
pub struct EventLoop {
    watchdog_period_ms: u64,
    tick_interval_ms: u64,
    last_yield_ms: u64,
    session_config: SessionConfig,
    event_topic: String,
}

impl View for EventLoop {
    type V = EventLoopView;

    closed spec fn view(&self) -> EventLoopView {
        EventLoopView {
            watchdog_period_ms: self.watchdog_period_ms,
            tick_interval_ms: self.tick_interval_ms,
            last_yield_ms: self.last_yield_ms,
            session_config: self.session_config,
            event_topic: self.event_topic@,
        }
    }
}

impl EventLoop {
    /// A loop that last yielded at `start_ms`.
    pub fn new(
        watchdog_period_ms: u64,
        tick_interval_ms: u64,
        session_config: SessionConfig,
        event_topic: String,
        start_ms: u64,
    ) -> (event_loop: EventLoop)
        ensures
            event_loop@ == (EventLoopView {
                watchdog_period_ms,
                tick_interval_ms,
                last_yield_ms: start_ms,
                session_config,
                event_topic: event_topic@,
            }),
    {
        EventLoop {
            watchdog_period_ms,
            tick_interval_ms,
            last_yield_ms: start_ms,
            session_config,
            event_topic,
        }
    }

    /// A loop with the default watchdog period, tick interval and session
    /// parameters.
    pub fn with_defaults(event_topic: String, start_ms: u64) -> (event_loop: EventLoop)
        ensures
            event_loop@ == (EventLoopView {
                watchdog_period_ms: DEFAULT_WATCHDOG_PERIOD_MS,
                tick_interval_ms: DEFAULT_TICK_INTERVAL_MS,
                last_yield_ms: start_ms,
                session_config: SessionConfig {
                    keep_alive_ms: crate::config::DEFAULT_KEEP_ALIVE_MS,
                    max_attempts: crate::config::DEFAULT_MAX_SESSION_ATTEMPTS,
                },
                event_topic: event_topic@,
            }),
    {
        EventLoop::new(
            DEFAULT_WATCHDOG_PERIOD_MS,
            DEFAULT_TICK_INTERVAL_MS,
            SessionConfig::with_defaults(),
            event_topic,
            start_ms,
        )
    }

    /// The period within which the loop must yield.
    pub fn watchdog_period_ms(&self) -> (period: u64)
        ensures
            period == self@.watchdog_period_ms,
    {
        self.watchdog_period_ms
    }

    /// The time at which the loop last yielded.
    pub fn last_yield_ms(&self) -> (at: u64)
        ensures
            at == self@.last_yield_ms,
    {
        self.last_yield_ms
    }

    /// How long the loop yields at the end of a tick.
    pub fn sleep_ms(&self) -> (sleep: u64)
        ensures
            sleep == yield_interval(self@),
            sleep <= self@.watchdog_period_ms,
    {
        if self.tick_interval_ms <= self.watchdog_period_ms {
            self.tick_interval_ms
        } else {
            self.watchdog_period_ms
        }
    }

    /// The message that reports `event`.
    pub fn message_for(&self, event: PressEvent) -> (message: Message)
        ensures
            message@ == press_message(self@.event_topic, event),
    {
        let text: &str = match event {
            PressEvent::ShortPress => SHORT_PRESS_TEXT,
            PressEvent::LongPress => LONG_PRESS_TEXT,
        };
        Message::new(self.event_topic.clone(), slice_to_vec(text.as_bytes()), QoS::AtLeastOnce)
    }

    /// Publishes every message that waits in `inbound`, oldest first, and
    /// leaves `inbound` empty.
    pub fn accept(session: &mut SessionManager, inbound: &mut OutboundQueue)
        ensures
            final(inbound)@.len() == 0,
            final(inbound).capacity_spec() == old(inbound).capacity_spec(),
            final(session)@ == publish_all(old(session)@, old(inbound)@),
    {
        let ghost target = publish_all(session@, inbound@);
        let ghost capacity = inbound.capacity_spec();
        loop
            invariant
                publish_all(session@, inbound@) == target,
                inbound.capacity_spec() == capacity,
            ensures
                inbound@.len() == 0,
                inbound.capacity_spec() == capacity,
                session@ == target,
            decreases inbound@.len(),
        {
            match inbound.dequeue() {
                Some(message) => {
                    session.publish(message);
                },
                None => {
                    break ;
                },
            }
        }
    }

    /// One tick at the time and with the readings of `observed`. What the
    /// plan asks for is done by the caller, who reports the outcomes to
    /// `network` and `session`; `inbound` is the hand-off from the command
    /// bridge.
    pub fn tick(
        &mut self,
        network: &mut NetworkSupervisor,
        session: &mut SessionManager,
        input: &mut InputClassifier,
        inbound: &mut OutboundQueue,
        observed: TickInput,
    ) -> (plan: Result<TickPlan, WatchdogViolation>)
        ensures
            final(input).timing_spec() == old(input).timing_spec(),
            final(inbound).capacity_spec() == old(inbound).capacity_spec(),
            (
                TickState {
                    event_loop: final(self)@,
                    network: final(network)@,
                    session: final(session)@,
                    input: final(input).snapshot_spec(),
                    inbound: final(inbound)@,
                },
                plan,
            ) == tick_step(
                TickState {
                    event_loop: old(self)@,
                    network: old(network)@,
                    session: old(session)@,
                    input: old(input).snapshot_spec(),
                    inbound: old(inbound)@,
                },
                old(input).timing_spec(),
                observed,
            ),
            plan matches Ok(plan) ==> plan.sleep_ms <= old(self)@.watchdog_period_ms,
    {
        let stalled_ms = elapsed_between(self.last_yield_ms, observed.now_ms);
        if stalled_ms > self.watchdog_period_ms {
            return Err(WatchdogViolation { stalled_ms });
        }
        let network_action = network.poll(observed.now_ms, observed.link_up, observed.entropy);
        let link = network.status();
        let opening = match link {
            NetworkState::Connected => match session.status() {
                SessionState::Idle => true,
                SessionState::Failed(_) => observed.now_ms >= session.retry_at_ms(),
                _ => false,
            },
            _ => false,
        };
        let session_action = if opening {
            session.open(self.session_config, link)
        } else {
            session.poll(link, observed.now_ms)
        };
        let event = input.sample(observed.raw_level, observed.now_ms);
        match event {
            Some(e) => {
                let message = self.message_for(e);
                session.publish(message);
            },
            None => {},
        }
        EventLoop::accept(session, inbound);
        assert(inbound@ =~= Seq::empty());
        let sleep_ms = self.sleep_ms();
        self.last_yield_ms = observed.now_ms;
        Ok(TickPlan { network: network_action, session: session_action, event, sleep_ms })
    }
}

} // verus!
