use connectivity::message::{Message, QoS};
use connectivity::network::{AssociationError, NetworkState};
use connectivity::queue::OutboundQueue;
use connectivity::retry::RetryBudget;
use connectivity::session::{
    SessionAction, SessionConfig, SessionError, SessionManager, SessionState, UnsupportedQoSError,
};

const UP: NetworkState = NetworkState::Connected;

fn numbered(n: u8) -> Message {
    Message::new(String::from("testtopic/1"), vec![n], QoS::AtLeastOnce)
}

fn config() -> SessionConfig {
    SessionConfig { keep_alive_ms: 60000, max_attempts: 5 }
}

fn manager(capacity: usize) -> SessionManager {
    SessionManager::new(RetryBudget::new(1000, 30000).unwrap(), OutboundQueue::new(capacity).unwrap())
}

fn active(capacity: usize, now: u64) -> SessionManager {
    let mut session = manager(capacity);
    assert_eq!(session.open(config(), UP), SessionAction::Connect);
    assert_eq!(session.connect_finished(Ok(()), now, 0), SessionState::Active);
    session
}

#[test]
fn new_session_is_idle_with_defaults() {
    let session = SessionManager::with_defaults();
    assert_eq!(session.status(), SessionState::Idle);
    assert!(!session.is_active());
    assert_eq!(session.config(), SessionConfig { keep_alive_ms: 60000, max_attempts: 5 });
    assert_eq!(session.config(), SessionConfig::with_defaults());
    assert_eq!(session.queued(), 0);
    assert_eq!(session.queue_capacity(), 16);
    assert_eq!(session.budget().next_delay_ms(), 1000);
    assert!(session.subscriptions().is_empty());
    assert!(session.next_outbound().is_none());
}

#[test]
fn open_needs_a_connected_network() {
    for network in [
        NetworkState::Disconnected,
        NetworkState::Associating,
        NetworkState::Failed(AssociationError::Timeout),
        NetworkState::Failed(AssociationError::AuthenticationRejected),
        NetworkState::Failed(AssociationError::RadioFault),
    ] {
        let mut session = manager(4);
        for now in [0u64, 10, 5000, 100000] {
            assert_eq!(session.open(config(), network), SessionAction::Nothing);
            assert_eq!(session.status(), SessionState::Idle);
            assert_eq!(session.poll(network, now), SessionAction::Nothing);
            assert_eq!(session.status(), SessionState::Idle);
            assert_eq!(session.poll(UP, now), SessionAction::Nothing);
            assert_eq!(session.status(), SessionState::Idle);
        }
    }
}

#[test]
fn open_goes_through_connecting_to_active() {
    let mut session = manager(4);
    assert_eq!(session.open(config(), UP), SessionAction::Connect);
    assert_eq!(session.status(), SessionState::Connecting);
    assert_eq!(session.open(config(), UP), SessionAction::Nothing);
    assert_eq!(session.poll(UP, 10), SessionAction::Nothing);
    assert_eq!(session.status(), SessionState::Connecting);
    assert_eq!(session.connect_finished(Ok(()), 20, 0), SessionState::Active);
    assert!(session.is_active());
    assert_eq!(session.open(config(), UP), SessionAction::Nothing);
    assert_eq!(session.status(), SessionState::Active);
}

#[test]
fn open_takes_the_session_parameters() {
    let mut session = manager(4);
    let custom = SessionConfig { keep_alive_ms: 1000, max_attempts: 2 };
    session.open(custom, NetworkState::Disconnected);
    assert_eq!(session.config(), config());
    session.open(custom, UP);
    assert_eq!(session.config(), custom);
}

#[test]
fn unreachable_broker_fails_the_session_after_five_attempts() {
    let mut session = active(4, 0);
    assert_eq!(session.connection_lost(100, 0), SessionState::Reconnecting);
    let mut now = 100;
    let mut waits = Vec::new();
    let mut failed = 0;
    for attempt in 1..=5 {
        let due = session.retry_at_ms();
        waits.push(due - now);
        assert_eq!(session.poll(UP, due - 1), SessionAction::Nothing);
        assert_eq!(session.poll(UP, due), SessionAction::Connect);
        assert_eq!(session.poll(UP, due + 1), SessionAction::Nothing);
        now = due + 5;
        let state = session.connect_finished(Err(SessionError::ConnectFailed), now, 0);
        if attempt < 5 {
            assert_eq!(state, SessionState::Reconnecting);
        } else {
            assert_eq!(state, SessionState::Failed(SessionError::ConnectFailed));
        }
        if matches!(state, SessionState::Failed(_)) {
            failed += 1;
        }
    }
    assert_eq!(waits, vec![1000, 2000, 4000, 8000, 16000]);
    assert_eq!(failed, 1);
    assert_eq!(session.budget().failures(), 5);
    assert_eq!(session.retry_at_ms(), now + 30000);
    for later in [now, now + 1, now + 30000, now + 30001, now + 10_000_000, u64::MAX] {
        assert_eq!(session.poll(UP, later), SessionAction::Nothing);
        assert_eq!(session.status(), SessionState::Failed(SessionError::ConnectFailed));
    }
    assert_eq!(
        session.connect_finished(Err(SessionError::ConnectFailed), now, 0),
        SessionState::Failed(SessionError::ConnectFailed)
    );
    assert_eq!(session.budget().failures(), 5);
    assert_eq!(session.open(config(), UP), SessionAction::Connect);
    assert_eq!(session.status(), SessionState::Connecting);
    assert_eq!(session.budget().failures(), 0);
}

#[test]
fn failed_first_connection_counts_as_the_first_attempt() {
    let mut session = manager(4);
    session.open(config(), UP);
    assert_eq!(
        session.connect_finished(Err(SessionError::ConnectFailed), 0, 0),
        SessionState::Reconnecting
    );
    assert_eq!(session.retry_at_ms(), 2000);
    let mut attempts = 1;
    while session.status() == SessionState::Reconnecting {
        let due = session.retry_at_ms();
        assert_eq!(session.poll(UP, due), SessionAction::Connect);
        attempts += 1;
        session.connect_finished(Err(SessionError::ConnectFailed), due, 0);
    }
    assert_eq!(attempts, 5);
    assert_eq!(session.status(), SessionState::Failed(SessionError::ConnectFailed));
}

#[test]
fn reconnection_restores_the_session_and_the_budget() {
    let mut session = active(4, 0);
    session.connection_lost(100, 0);
    assert_eq!(session.poll(UP, 1100), SessionAction::Connect);
    session.connect_finished(Err(SessionError::ConnectFailed), 1100, 0);
    assert_eq!(session.poll(UP, 3100), SessionAction::Connect);
    assert_eq!(session.connect_finished(Ok(()), 3200, 0), SessionState::Active);
    assert_eq!(session.budget().failures(), 0);
    session.connection_lost(4000, 0);
    assert_eq!(session.retry_at_ms(), 5000);
}

#[test]
fn messages_wait_until_the_session_is_active() {
    let mut session = manager(4);
    assert!(session.publish(numbered(1)).is_none());
    assert_eq!(session.poll(NetworkState::Disconnected, 0), SessionAction::Nothing);
    assert_eq!(session.poll(UP, 0), SessionAction::Nothing);
    assert!(session.publish(numbered(2)).is_none());
    session.open(config(), UP);
    assert_eq!(session.poll(UP, 10), SessionAction::Nothing);
    assert!(session.publish(numbered(3)).is_none());
    assert_eq!(session.queued(), 3);
    session.connect_finished(Ok(()), 20, 0);
    for n in 1..=3u8 {
        assert_eq!(session.poll(UP, 30), SessionAction::Transmit);
        assert_eq!(session.next_outbound().unwrap().payload(), &vec![n]);
        let sent = session.transmit_finished(true, 30, 0).unwrap();
        assert_eq!(sent.payload(), &vec![n]);
    }
    assert_eq!(session.queued(), 0);
    assert_eq!(session.poll(UP, 40), SessionAction::Nothing);
}

#[test]
fn only_overflow_drops_and_it_drops_the_oldest() {
    let mut session = manager(3);
    for n in 1..=3u8 {
        assert!(session.publish(numbered(n)).is_none());
    }
    session.poll(NetworkState::Disconnected, 0);
    session.open(config(), NetworkState::Disconnected);
    session.connection_lost(0, 0);
    session.connect_finished(Err(SessionError::ConnectFailed), 0, 0);
    session.transmit_finished(true, 0, 0);
    assert_eq!(session.queued(), 3);
    assert_eq!(session.publish(numbered(4)).unwrap().payload(), &vec![1]);
    assert_eq!(session.queued(), 3);
    assert_eq!(session.queue_capacity(), 3);
    assert_eq!(session.next_outbound().unwrap().payload(), &vec![2]);
}

#[test]
fn failed_transmission_keeps_the_message_and_reconnects() {
    let mut session = active(4, 0);
    session.publish(numbered(1));
    session.publish(numbered(2));
    assert_eq!(session.poll(UP, 10), SessionAction::Transmit);
    assert!(session.transmit_finished(false, 10, 0).is_none());
    assert_eq!(session.status(), SessionState::Reconnecting);
    assert_eq!(session.retry_at_ms(), 1010);
    assert_eq!(session.queued(), 2);
    assert_eq!(session.poll(UP, 1010), SessionAction::Connect);
    session.connect_finished(Ok(()), 1020, 0);
    assert_eq!(session.poll(UP, 1030), SessionAction::Transmit);
    assert_eq!(session.transmit_finished(true, 1030, 0).unwrap().payload(), &vec![1]);
    assert_eq!(session.transmit_finished(true, 1031, 0).unwrap().payload(), &vec![2]);
    assert!(session.transmit_finished(true, 1032, 0).is_none());
}

#[test]
fn lost_network_puts_the_session_back_to_idle() {
    let mut session = active(4, 0);
    session.publish(numbered(1));
    assert_eq!(session.poll(NetworkState::Disconnected, 10), SessionAction::Nothing);
    assert_eq!(session.status(), SessionState::Idle);
    assert_eq!(session.queued(), 1);
    assert_eq!(session.connect_finished(Ok(()), 20, 0), SessionState::Idle);
    assert_eq!(session.open(config(), UP), SessionAction::Connect);
    session.connect_finished(Err(SessionError::ConnectFailed), 30, 0);
    assert_eq!(session.status(), SessionState::Reconnecting);
    assert_eq!(session.poll(NetworkState::Associating, 40), SessionAction::Nothing);
    assert_eq!(session.status(), SessionState::Idle);
    assert_eq!(session.budget().failures(), 0);
}

#[test]
fn failed_session_becomes_idle_when_the_network_cycles() {
    let mut session = manager(4);
    session.open(SessionConfig { keep_alive_ms: 60000, max_attempts: 1 }, UP);
    assert_eq!(
        session.connect_finished(Err(SessionError::ConnectFailed), 0, 0),
        SessionState::Failed(SessionError::ConnectFailed)
    );
    assert_eq!(session.poll(UP, 100000), SessionAction::Nothing);
    assert_eq!(session.poll(NetworkState::Disconnected, 100001), SessionAction::Nothing);
    assert_eq!(session.status(), SessionState::Idle);
    assert_eq!(session.poll(UP, 100002), SessionAction::Nothing);
    assert_eq!(session.status(), SessionState::Idle);
}

#[test]
fn liveness_signal_is_sent_within_the_keep_alive_interval() {
    let mut session = manager(4);
    session.open(SessionConfig { keep_alive_ms: 60000, max_attempts: 5 }, UP);
    session.connect_finished(Ok(()), 1000, 0);
    assert_eq!(session.poll(UP, 1000), SessionAction::Nothing);
    assert_eq!(session.poll(UP, 30999), SessionAction::Nothing);
    assert_eq!(session.poll(UP, 31000), SessionAction::KeepAlive);
    assert_eq!(session.poll(UP, 31001), SessionAction::Nothing);
    assert_eq!(session.poll(UP, 60999), SessionAction::Nothing);
    session.publish(numbered(1));
    assert_eq!(session.poll(UP, 61000), SessionAction::Transmit);
    session.transmit_finished(true, 61000, 0);
    assert_eq!(session.poll(UP, 90999), SessionAction::Nothing);
    assert_eq!(session.poll(UP, 91000), SessionAction::KeepAlive);
}

#[test]
fn subscribe_registers_supported_guarantees() {
    let mut session = manager(4);
    assert_eq!(session.subscribe(String::from("testtopic/1"), QoS::AtLeastOnce), Ok(()));
    assert_eq!(session.subscribe(String::from("other"), QoS::AtMostOnce), Ok(()));
    let subscriptions = session.subscriptions();
    assert_eq!(subscriptions.len(), 2);
    assert_eq!(subscriptions[0].topic(), "testtopic/1");
    assert_eq!(subscriptions[0].qos(), QoS::AtLeastOnce);
    assert_eq!(subscriptions[1].topic(), "other");
    assert_eq!(subscriptions[1].qos(), QoS::AtMostOnce);
}

#[test]
fn subscribe_refuses_exactly_once() {
    let mut session = active(4, 0);
    session.publish(numbered(1));
    session.subscribe(String::from("kept"), QoS::AtMostOnce).unwrap();
    assert_eq!(
        session.subscribe(String::from("testtopic/1"), QoS::ExactlyOnce),
        Err(UnsupportedQoSError { qos: QoS::ExactlyOnce })
    );
    assert_eq!(session.subscriptions().len(), 1);
    assert_eq!(session.status(), SessionState::Active);
    assert_eq!(session.queued(), 1);
}

#[test]
fn reports_out_of_turn_change_nothing() {
    let mut session = manager(4);
    session.publish(numbered(1));
    assert_eq!(session.connection_lost(10, 0), SessionState::Idle);
    assert!(session.transmit_finished(true, 10, 0).is_none());
    assert_eq!(session.connect_finished(Ok(()), 10, 0), SessionState::Idle);
    assert_eq!(session.queued(), 1);
    let mut session = active(4, 0);
    assert_eq!(session.connect_finished(Err(SessionError::ConnectFailed), 10, 0), SessionState::Active);
    assert!(session.transmit_finished(true, 10, 0).is_none());
    session.connection_lost(20, 0);
    assert_eq!(session.connect_finished(Ok(()), 30, 0), SessionState::Reconnecting);
    assert_eq!(session.connection_lost(40, 0), SessionState::Reconnecting);
    assert_eq!(session.retry_at_ms(), 1020);
}
