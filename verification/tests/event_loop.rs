use connectivity::command::CommandBridge;
use connectivity::config::Credentials;
use connectivity::event_loop::{
    EventLoop, TickInput, TickPlan, WatchdogViolation, DEFAULT_TICK_INTERVAL_MS, LONG_PRESS_TEXT,
    SHORT_PRESS_TEXT,
};
use connectivity::input::{InputClassifier, InputState, PressEvent};
use connectivity::message::{Message, QoS};
use connectivity::network::{AssociationError, NetworkAction, NetworkState, NetworkSupervisor};
use connectivity::queue::OutboundQueue;
use connectivity::session::{SessionAction, SessionConfig, SessionError, SessionManager, SessionState};

struct Device {
    event_loop: EventLoop,
    network: NetworkSupervisor,
    session: SessionManager,
    input: InputClassifier,
    inbound: OutboundQueue,
}

fn credentials() -> Credentials {
    Credentials::new(
        String::from("Wokwi-GUEST"),
        String::new(),
        String::from("mqtt://broker.mqttdashboard.com:1883"),
        String::from("esp32"),
    )
}

impl Device {
    fn new(start_ms: u64) -> Device {
        Device {
            event_loop: EventLoop::with_defaults(String::from("testtopic/1"), start_ms),
            network: NetworkSupervisor::with_defaults(),
            session: SessionManager::with_defaults(),
            input: InputClassifier::with_defaults(),
            inbound: OutboundQueue::with_default_capacity(),
        }
    }

    fn tick(&mut self, now_ms: u64, link_up: bool, raw_level: bool) -> Result<TickPlan, WatchdogViolation> {
        self.event_loop.tick(
            &mut self.network,
            &mut self.session,
            &mut self.input,
            &mut self.inbound,
            TickInput { now_ms, link_up, raw_level, entropy: 0 },
        )
    }

    /// Ticks until network and session are up; returns the time reached.
    fn bring_up(&mut self) -> u64 {
        assert_eq!(self.network.connect(credentials()), NetworkAction::Associate);
        let plan = self.tick(0, false, false).unwrap();
        assert_eq!(plan.network, NetworkAction::Nothing);
        assert_eq!(plan.session, SessionAction::Nothing);
        self.network.association_finished(Ok(()), 5, 0);
        let plan = self.tick(10, true, false).unwrap();
        assert_eq!(plan.network, NetworkAction::Nothing);
        assert_eq!(plan.session, SessionAction::Connect);
        assert_eq!(self.session.connect_finished(Ok(()), 15, 0), SessionState::Active);
        20
    }
}

#[test]
fn ticks_bring_the_device_up() {
    let mut device = Device::new(0);
    let now = device.bring_up();
    assert_eq!(device.network.status(), NetworkState::Connected);
    assert_eq!(device.session.status(), SessionState::Active);
    let plan = device.tick(now, true, false).unwrap();
    assert_eq!(
        plan,
        TickPlan {
            network: NetworkAction::Nothing,
            session: SessionAction::Nothing,
            event: None,
            sleep_ms: 10,
        }
    );
    assert_eq!(device.event_loop.last_yield_ms(), now);
}

#[test]
fn session_is_not_opened_without_the_network() {
    let mut device = Device::new(0);
    let plan = device.tick(0, false, false).unwrap();
    assert_eq!(plan.network, NetworkAction::Nothing);
    assert_eq!(device.network.connect(credentials()), NetworkAction::Associate);
    for now in 1..50 {
        let plan = device.tick(now * 10, false, false).unwrap();
        assert_eq!(plan.session, SessionAction::Nothing);
        assert_eq!(device.session.status(), SessionState::Idle);
    }
    device.network.association_finished(Err(AssociationError::Timeout), 500, 0);
    let plan = device.tick(510, false, false).unwrap();
    assert_eq!(plan.session, SessionAction::Nothing);
    assert_eq!(device.session.status(), SessionState::Idle);
}

#[test]
fn tick_retries_the_association_when_it_is_due() {
    let mut device = Device::new(0);
    device.network.connect(credentials());
    device.network.association_finished(Err(AssociationError::RadioFault), 0, 0);
    let mut started = Vec::new();
    for now in (0..=4000).step_by(500) {
        let plan = device.tick(now, false, false).unwrap();
        if plan.network == NetworkAction::Associate {
            started.push(now);
            device.network.association_finished(Err(AssociationError::RadioFault), now, 0);
        }
    }
    assert_eq!(started, vec![2000]);
    assert_eq!(device.network.retry_at_ms(), 6000);
}

#[test]
fn short_press_is_queued_and_sent() {
    let mut device = Device::new(0);
    let mut now = device.bring_up();
    let mut events = Vec::new();
    for _ in 0..30 {
        let plan = device.tick(now, true, true).unwrap();
        assert_eq!(plan.session, SessionAction::Nothing);
        events.extend(plan.event);
        now += 10;
    }
    let plan = device.tick(now, true, false).unwrap();
    assert_eq!(plan.event, Some(PressEvent::ShortPress));
    assert_eq!(plan.session, SessionAction::Nothing);
    assert!(events.is_empty());
    assert_eq!(device.session.queued(), 1);
    now += 10;
    let plan = device.tick(now, true, false).unwrap();
    assert_eq!(plan.session, SessionAction::Transmit);
    let message = device.session.next_outbound().unwrap();
    assert_eq!(message.topic(), "testtopic/1");
    assert_eq!(message.payload(), &b"Button Pressed".to_vec());
    assert_eq!(message.qos(), QoS::AtLeastOnce);
    assert!(device.session.transmit_finished(true, now, 0).is_some());
    assert_eq!(device.input.state(), InputState::Released);
}

#[test]
fn long_press_is_queued_once() {
    let mut device = Device::new(0);
    let mut now = device.bring_up();
    let mut events = Vec::new();
    for _ in 0..200 {
        let plan = device.tick(now, true, true).unwrap();
        events.extend(plan.event);
        if plan.session == SessionAction::Transmit {
            let sent = device.session.transmit_finished(true, now, 0).unwrap();
            assert_eq!(sent.payload(), &b"Button Long Pressed".to_vec());
        }
        now += 10;
    }
    let plan = device.tick(now, true, false).unwrap();
    assert_eq!(plan.event, None);
    assert_eq!(events, vec![PressEvent::LongPress]);
    assert_eq!(device.session.queued(), 0);
}

#[test]
fn press_messages_carry_their_texts() {
    let event_loop = EventLoop::with_defaults(String::from("buttons"), 0);
    assert_eq!(SHORT_PRESS_TEXT, "Button Pressed");
    assert_eq!(LONG_PRESS_TEXT, "Button Long Pressed");
    let short = event_loop.message_for(PressEvent::ShortPress);
    assert_eq!(short.topic(), "buttons");
    assert_eq!(short.payload(), &b"Button Pressed".to_vec());
    let long = event_loop.message_for(PressEvent::LongPress);
    assert_eq!(long.payload(), &b"Button Long Pressed".to_vec());
    assert_eq!(long.qos(), QoS::AtLeastOnce);
}

#[test]
fn bridged_commands_are_queued_in_order_after_the_press() {
    let mut device = Device::new(0);
    let mut now = device.bring_up();
    for _ in 0..10 {
        device.tick(now, true, true).unwrap();
        now += 10;
    }
    let bridge = CommandBridge::with_defaults(String::from("testtopic/1"));
    assert!(device.inbound.enqueue(bridge.translate("first").unwrap()).is_none());
    assert!(device.inbound.enqueue(bridge.translate("second").unwrap()).is_none());
    let plan = device.tick(now, true, false).unwrap();
    assert_eq!(plan.event, Some(PressEvent::ShortPress));
    assert!(device.inbound.is_empty());
    assert_eq!(device.session.queued(), 3);
    let mut sent = Vec::new();
    while let Some(message) = device.session.transmit_finished(true, now, 0) {
        sent.push(message.payload().clone());
    }
    assert_eq!(sent, vec![b"Button Pressed".to_vec(), b"first".to_vec(), b"second".to_vec()]);
}

#[test]
fn accept_drains_the_inbound_queue() {
    let mut session = SessionManager::with_defaults();
    let mut inbound = OutboundQueue::new(32).unwrap();
    for n in 0..20u8 {
        inbound.enqueue(Message::new(String::from("t"), vec![n], QoS::AtMostOnce));
    }
    EventLoop::accept(&mut session, &mut inbound);
    assert!(inbound.is_empty());
    assert_eq!(inbound.capacity(), 32);
    assert_eq!(session.queued(), 16);
    assert_eq!(session.next_outbound().unwrap().payload(), &vec![4]);
    EventLoop::accept(&mut session, &mut inbound);
    assert_eq!(session.queued(), 16);
}

#[test]
fn loop_yields_within_the_watchdog_period() {
    let config = SessionConfig::with_defaults();
    let quick = EventLoop::new(1000, 10, config, String::from("t"), 0);
    assert_eq!(quick.sleep_ms(), 10);
    assert_eq!(quick.watchdog_period_ms(), 1000);
    let slow = EventLoop::new(1000, 5000, config, String::from("t"), 0);
    assert_eq!(slow.sleep_ms(), 1000);
    let exact = EventLoop::new(1000, 1000, config, String::from("t"), 0);
    assert_eq!(exact.sleep_ms(), 1000);
    assert_eq!(DEFAULT_TICK_INTERVAL_MS, 10);
    let mut device = Device::new(0);
    for now in [0u64, 1000, 2000, 2001, 3001] {
        let plan = device.tick(now, true, false).unwrap();
        assert!(plan.sleep_ms <= 1000);
        assert_eq!(device.event_loop.last_yield_ms(), now);
    }
}

#[test]
fn stall_beyond_the_watchdog_period_is_fatal() {
    let mut device = Device::new(100);
    device.session.publish(Message::new(String::from("t"), vec![1], QoS::AtMostOnce));
    device.inbound.enqueue(Message::new(String::from("t"), vec![2], QoS::AtMostOnce));
    assert_eq!(device.tick(1101, false, true), Err(WatchdogViolation { stalled_ms: 1001 }));
    assert_eq!(device.event_loop.last_yield_ms(), 100);
    assert_eq!(device.network.status(), NetworkState::Disconnected);
    assert_eq!(device.session.status(), SessionState::Idle);
    assert_eq!(device.session.queued(), 1);
    assert_eq!(device.input.state(), InputState::Released);
    assert_eq!(device.inbound.len(), 1);
    assert!(device.tick(1100, false, true).is_ok());
    assert_eq!(device.input.state(), InputState::DebouncingPress);
    assert_eq!(device.inbound.len(), 0);
    assert_eq!(device.tick(5000, false, true), Err(WatchdogViolation { stalled_ms: 3900 }));
}

#[test]
fn failed_session_is_opened_again_after_the_cap_delay() {
    let mut device = Device::new(0);
    let mut now = device.bring_up();
    device.session.connection_lost(now, 0);
    let mut attempts = 0;
    while device.session.status() == SessionState::Reconnecting {
        now += 10;
        let plan = device.tick(now, true, false).unwrap();
        if plan.session == SessionAction::Connect {
            attempts += 1;
            device.session.connect_finished(Err(SessionError::ConnectFailed), now, 0);
        }
    }
    assert_eq!(attempts, 5);
    assert_eq!(device.session.status(), SessionState::Failed(SessionError::ConnectFailed));
    let failed_at = now;
    let mut opened_at = None;
    while opened_at.is_none() {
        now += 10;
        let plan = device.tick(now, true, false).unwrap();
        if plan.session == SessionAction::Connect {
            opened_at = Some(now);
        } else {
            assert_eq!(plan.session, SessionAction::Nothing);
            assert_eq!(device.session.status(), SessionState::Failed(SessionError::ConnectFailed));
        }
    }
    assert_eq!(opened_at, Some(failed_at + 30000));
    assert_eq!(device.session.status(), SessionState::Connecting);
}
