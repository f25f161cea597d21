//! The boot-time settings and the components that are made from them.

use crate::command::{CommandBridge, CommandBridgeView};
use crate::config::{
    DEFAULT_CONNECT_TIMEOUT_MS, DEFAULT_KEEP_ALIVE_MS, DEFAULT_MAX_COMMAND_BYTES,
    DEFAULT_MAX_SESSION_ATTEMPTS, DEFAULT_WATCHDOG_PERIOD_MS,
};
use crate::event_loop::{
    tick_step, EventLoop, EventLoopView, TickInput, TickPlan, TickState, WatchdogViolation,
    DEFAULT_TICK_INTERVAL_MS,
};
use crate::input::{
    initial_snapshot, InputClassifier, InputTiming, DEFAULT_DEBOUNCE_MS, DEFAULT_LONG_PRESS_MS,
};
use crate::message::{MessageView, QoS};
use crate::network::{NetworkState, NetworkSupervisor, NetworkView};
use crate::queue::{OutboundQueue, DEFAULT_QUEUE_CAPACITY};
use crate::retry::{RetryBudget, RetryBudgetView, DEFAULT_BASE_DELAY_MS, DEFAULT_CAP_DELAY_MS};
use crate::session::{SessionConfig, SessionManager, SessionState, SessionView};
use vstd::prelude::*;

verus! {

/// The numbers that are fixed when the device starts.
#[derive(Clone, Copy, Debug, PartialEq, Eq, Structural)]
pub struct Settings {
    pub debounce_ms: u64,
    pub long_press_ms: u64,
    pub queue_capacity: usize,
    pub retry_base_ms: u64,
    pub retry_cap_ms: u64,
    pub connect_timeout_ms: u64,
    pub keep_alive_ms: u64,
    pub max_session_attempts: u32,
    pub max_command_bytes: usize,
    pub watchdog_period_ms: u64,
    pub tick_interval_ms: u64,
}

/// Why settings cannot be used.
#[derive(Clone, Copy, Debug, PartialEq, Eq, Structural)]
pub enum SettingsError {
    /// The queue would hold no message.
    QueueCapacity,
    /// The base delay is zero or above the cap.
    RetryDelays,
}

impl Settings {
    /// Whether the settings can be used, and if not, what is wrong first.
    pub open spec fn checked(self) -> Result<(), SettingsError> {
        if self.queue_capacity == 0 {
            Err(SettingsError::QueueCapacity)
        } else if self.retry_base_ms == 0 || self.retry_base_ms > self.retry_cap_ms {
            Err(SettingsError::RetryDelays)
        } else {
            Ok(())
        }
    }

    /// The retry budget that both supervisors start with.
    pub open spec fn budget(self) -> RetryBudgetView {
        RetryBudgetView {
            base: self.retry_base_ms as nat,
            cap: self.retry_cap_ms as nat,
            failures: 0,
        }
    }

    /// The session parameters.
    pub open spec fn session_config(self) -> SessionConfig {
        SessionConfig { keep_alive_ms: self.keep_alive_ms, max_attempts: self.max_session_attempts }
    }

    /// The default settings.
    pub fn with_defaults() -> (settings: Settings)
        ensures
            settings == (Settings {
                debounce_ms: DEFAULT_DEBOUNCE_MS,
                long_press_ms: DEFAULT_LONG_PRESS_MS,
                queue_capacity: DEFAULT_QUEUE_CAPACITY,
                retry_base_ms: DEFAULT_BASE_DELAY_MS,
                retry_cap_ms: DEFAULT_CAP_DELAY_MS,
                connect_timeout_ms: DEFAULT_CONNECT_TIMEOUT_MS,
                keep_alive_ms: DEFAULT_KEEP_ALIVE_MS,
                max_session_attempts: DEFAULT_MAX_SESSION_ATTEMPTS,
                max_command_bytes: DEFAULT_MAX_COMMAND_BYTES,
                watchdog_period_ms: DEFAULT_WATCHDOG_PERIOD_MS,
                tick_interval_ms: DEFAULT_TICK_INTERVAL_MS,
            }),
            settings.checked() is Ok,
    {
        Settings {
            debounce_ms: DEFAULT_DEBOUNCE_MS,
            long_press_ms: DEFAULT_LONG_PRESS_MS,
            queue_capacity: DEFAULT_QUEUE_CAPACITY,
            retry_base_ms: DEFAULT_BASE_DELAY_MS,
            retry_cap_ms: DEFAULT_CAP_DELAY_MS,
            connect_timeout_ms: DEFAULT_CONNECT_TIMEOUT_MS,
            keep_alive_ms: DEFAULT_KEEP_ALIVE_MS,
            max_session_attempts: DEFAULT_MAX_SESSION_ATTEMPTS,
            max_command_bytes: DEFAULT_MAX_COMMAND_BYTES,
            watchdog_period_ms: DEFAULT_WATCHDOG_PERIOD_MS,
            tick_interval_ms: DEFAULT_TICK_INTERVAL_MS,
        }
    }

    /// Checks the settings.
    pub fn check(&self) -> (outcome: Result<(), SettingsError>)
        ensures
            outcome == self.checked(),
    {
        if self.queue_capacity == 0 {
            Err(SettingsError::QueueCapacity)
        } else if self.retry_base_ms == 0 || self.retry_base_ms > self.retry_cap_ms {
            Err(SettingsError::RetryDelays)
        } else {
            Ok(())
        }
    }

    /// The bridge for commands that are published on `topic`.
    pub fn command_bridge(&self, topic: String, qos: QoS) -> (bridge: CommandBridge)
        ensures
            bridge@ == (CommandBridgeView {
                topic: topic@,
                qos,
                max_bytes: self.max_command_bytes as nat,
            }),
    {
        CommandBridge::new(topic, qos, self.max_command_bytes)
    }

    /// An empty hand-off queue between the command bridge and the loop,
    /// of the same capacity as the outbound queue.
    pub fn hand_off(&self) -> (queue: Result<OutboundQueue, SettingsError>)
        ensures
            queue is Ok <==> self.queue_capacity > 0,
            queue matches Ok(q) ==> q@ == Seq::<MessageView>::empty() && q.capacity_spec()
                == self.queue_capacity,
            queue matches Err(e) ==> e == SettingsError::QueueCapacity,
    {
        match OutboundQueue::new(self.queue_capacity) {
            Some(queue) => Ok(queue),
            None => Err(SettingsError::QueueCapacity),
        }
    }
}

/// The components of one device. Each owns its state; the others only
/// read it.
pub struct Device {
    pub event_loop: EventLoop,
    pub network: NetworkSupervisor,
    pub session: SessionManager,
    pub input: InputClassifier,
}

/// The state of a device that was just made from `settings`.
pub open spec fn initial_state(
    settings: Settings,
    event_topic: Seq<char>,
    start_ms: u64,
) -> TickState {
    TickState {
        event_loop: EventLoopView {
            watchdog_period_ms: settings.watchdog_period_ms,
            tick_interval_ms: settings.tick_interval_ms,
            last_yield_ms: start_ms,
            session_config: settings.session_config(),
            event_topic,
        },
        network: NetworkView {
            state: NetworkState::Disconnected,
            credentials: None,
            budget: settings.budget(),
            retry_at_ms: 0,
            connect_timeout_ms: settings.connect_timeout_ms,
        },
        session: SessionView {
            state: SessionState::Idle,
            attempting: false,
            config: settings.session_config(),
            budget: settings.budget(),
            retry_at_ms: 0,
            last_activity_ms: 0,
            queue: Seq::empty(),
            queue_capacity: settings.queue_capacity as nat,
            subscriptions: Seq::empty(),
        },
        input: initial_snapshot(),
        inbound: Seq::empty(),
    }
}

impl Device {
    /// The state of the device together with the hand-off queue.
    pub open spec fn state(&self, inbound: Seq<MessageView>) -> TickState {
        TickState {
            event_loop: self.event_loop@,
            network: self.network@,
            session: self.session@,
            input: self.input.snapshot_spec(),
            inbound,
        }
    }

    /// A device made from `settings`: no link and no credentials yet, an
    /// idle session, a released button, and a loop that last yielded at
    /// `start_ms`. Settings that cannot be used are refused.
    pub fn new(settings: Settings, event_topic: String, start_ms: u64) -> (device: Result<
        Device,
        SettingsError,
    >)
        ensures
            match device {
                Ok(d) => {
                    &&& settings.checked() is Ok
                    &&& d.state(Seq::empty()) == initial_state(settings, event_topic@, start_ms)
                    &&& d.input.timing_spec() == (InputTiming {
                        debounce_ms: settings.debounce_ms,
                        long_press_ms: settings.long_press_ms,
                    })
                },
                Err(e) => settings.checked() == Err::<(), SettingsError>(e),
            },
    {
        let queue = match OutboundQueue::new(settings.queue_capacity) {
            Some(queue) => queue,
            None => {
                return Err(SettingsError::QueueCapacity);
            },
        };
        let link_budget = match RetryBudget::new(settings.retry_base_ms, settings.retry_cap_ms) {
            Some(budget) => budget,
            None => {
                return Err(SettingsError::RetryDelays);
            },
        };
        let session_budget = match RetryBudget::new(settings.retry_base_ms, settings.retry_cap_ms) {
            Some(budget) => budget,
            None => {
                return Err(SettingsError::RetryDelays);
            },
        };
        let session_config = SessionConfig {
            keep_alive_ms: settings.keep_alive_ms,
            max_attempts: settings.max_session_attempts,
        };
        Ok(
            Device {
                event_loop: EventLoop::new(
                    settings.watchdog_period_ms,
                    settings.tick_interval_ms,
                    session_config,
                    event_topic,
                    start_ms,
                ),
                network: NetworkSupervisor::new(link_budget, settings.connect_timeout_ms),
                session: SessionManager::with_config(session_config, session_budget, queue),
                input: InputClassifier::new(settings.debounce_ms, settings.long_press_ms),
            },
        )
    }

    /// One tick of the device; see `EventLoop::tick`.
    pub fn tick(&mut self, inbound: &mut OutboundQueue, observed: TickInput) -> (plan: Result<
        TickPlan,
        WatchdogViolation,
    >)
        ensures
            final(self).input.timing_spec() == old(self).input.timing_spec(),
            final(inbound).capacity_spec() == old(inbound).capacity_spec(),
            (final(self).state(final(inbound)@), plan) == tick_step(
                old(self).state(old(inbound)@),
                old(self).input.timing_spec(),
                observed,
            ),
    {
        self.event_loop.tick(
            &mut self.network,
            &mut self.session,
            &mut self.input,
            inbound,
            observed,
        )
    }
}

} // verus!
