use connectivity::config::{Credentials, DEFAULT_CONNECT_TIMEOUT_MS};
use connectivity::network::{AssociationError, NetworkAction, NetworkState, NetworkSupervisor};
use connectivity::retry::RetryBudget;

fn credentials() -> Credentials {
    Credentials::new(
        String::from("Wokwi-GUEST"),
        String::new(),
        String::from("mqtt://broker.mqttdashboard.com:1883"),
        String::from("esp32"),
    )
}

fn supervisor() -> NetworkSupervisor {
    NetworkSupervisor::new(RetryBudget::new(1000, 30000).unwrap(), 10000)
}

#[test]
fn credentials_are_handed_on_unchanged() {
    let plain = credentials();
    assert_eq!(plain.network_name(), "Wokwi-GUEST");
    assert_eq!(plain.passphrase(), "");
    assert_eq!(plain.broker_address(), "mqtt://broker.mqttdashboard.com:1883");
    assert_eq!(plain.client_id(), "esp32");
    assert_eq!(plain.username(), &None);
    assert_eq!(plain.password(), &None);
    let with_login = plain.with_login(String::from("user"), String::from("secret"));
    assert_eq!(with_login.network_name(), "Wokwi-GUEST");
    assert_eq!(with_login.client_id(), "esp32");
    assert_eq!(with_login.username(), &Some(String::from("user")));
    assert_eq!(with_login.password(), &Some(String::from("secret")));
}

#[test]
fn new_supervisor_is_disconnected() {
    let network = NetworkSupervisor::with_defaults();
    assert_eq!(network.status(), NetworkState::Disconnected);
    assert!(!network.is_connected());
    assert_eq!(network.connect_timeout_ms(), 10000);
    assert_eq!(DEFAULT_CONNECT_TIMEOUT_MS, 10000);
    assert_eq!(network.retry_at_ms(), 0);
    assert_eq!(network.budget().failures(), 0);
    assert_eq!(network.credentials(), None);
}

#[test]
fn connect_keeps_the_credentials() {
    let mut network = supervisor();
    let login = credentials().with_login(String::from("user"), String::from("secret"));
    assert_eq!(network.connect(login.clone()), NetworkAction::Associate);
    assert_eq!(network.credentials(), Some(&login));
    assert_eq!(network.connect(credentials()), NetworkAction::Nothing);
    assert_eq!(network.credentials(), Some(&login));
    network.association_finished(Ok(()), 10, 0);
    assert_eq!(network.connect(credentials()), NetworkAction::Nothing);
    assert_eq!(network.credentials(), Some(&login));
    network.poll(20, false, 0);
    assert_eq!(network.status(), NetworkState::Disconnected);
    assert_eq!(network.connect(credentials()), NetworkAction::Associate);
    assert_eq!(network.credentials(), Some(&credentials()));
}

#[test]
fn connect_succeeds() {
    let mut network = supervisor();
    assert_eq!(network.connect(credentials()), NetworkAction::Associate);
    assert_eq!(network.status(), NetworkState::Associating);
    assert_eq!(network.association_finished(Ok(()), 500, 0), NetworkState::Connected);
    assert!(network.is_connected());
    assert_eq!(network.poll(600, true, 0), NetworkAction::Nothing);
    assert_eq!(network.status(), NetworkState::Connected);
}

#[test]
fn connect_fails_with_the_reason() {
    for reason in [
        AssociationError::Timeout,
        AssociationError::AuthenticationRejected,
        AssociationError::RadioFault,
    ] {
        let mut network = supervisor();
        assert_eq!(network.connect(credentials()), NetworkAction::Associate);
        assert_eq!(
            network.association_finished(Err(reason), 10000, 0),
            NetworkState::Failed(reason)
        );
        assert_eq!(network.status(), NetworkState::Failed(reason));
        assert_eq!(network.budget().failures(), 1);
        assert_eq!(network.retry_at_ms(), 12000);
    }
}

#[test]
fn attempts_do_not_overlap() {
    let mut network = supervisor();
    assert_eq!(network.connect(credentials()), NetworkAction::Associate);
    assert_eq!(network.connect(credentials()), NetworkAction::Nothing);
    assert_eq!(network.poll(100, false, 0), NetworkAction::Nothing);
    assert_eq!(network.poll(100000, true, 0), NetworkAction::Nothing);
    assert_eq!(network.status(), NetworkState::Associating);
    network.association_finished(Ok(()), 200, 0);
    assert_eq!(network.connect(credentials()), NetworkAction::Nothing);
    assert_eq!(network.status(), NetworkState::Connected);
}

#[test]
fn link_loss_is_noticed_and_retried_after_the_base_delay() {
    let mut network = supervisor();
    network.connect(credentials());
    network.association_finished(Ok(()), 0, 0);
    assert_eq!(network.poll(5000, false, 0), NetworkAction::Nothing);
    assert_eq!(network.status(), NetworkState::Disconnected);
    assert_eq!(network.retry_at_ms(), 6000);
    assert_eq!(network.poll(5999, false, 0), NetworkAction::Nothing);
    assert_eq!(network.status(), NetworkState::Disconnected);
    assert_eq!(network.poll(6000, false, 0), NetworkAction::Associate);
    assert_eq!(network.status(), NetworkState::Associating);
}

#[test]
fn reassociation_backs_off_without_end() {
    let mut network = supervisor();
    network.connect(credentials());
    network.association_finished(Ok(()), 0, 0);
    network.poll(0, false, 0);
    let mut now = 0;
    let mut waits = Vec::new();
    for _ in 0..12 {
        let due = network.retry_at_ms();
        waits.push(due - now);
        if due > now {
            assert_eq!(network.poll(due - 1, false, 0), NetworkAction::Nothing);
        }
        assert_eq!(network.poll(due, false, 0), NetworkAction::Associate);
        now = due + 10;
        assert_eq!(
            network.association_finished(Err(AssociationError::Timeout), now, 0),
            NetworkState::Failed(AssociationError::Timeout)
        );
    }
    assert_eq!(
        waits,
        vec![1000, 2000, 4000, 8000, 16000, 30000, 30000, 30000, 30000, 30000, 30000, 30000]
    );
    assert_eq!(network.budget().failures(), 12);
    let due = network.retry_at_ms();
    assert_eq!(network.poll(due, false, 0), NetworkAction::Associate);
    assert_eq!(network.association_finished(Ok(()), due + 5, 0), NetworkState::Connected);
    assert_eq!(network.budget().failures(), 0);
    assert_eq!(network.budget().next_delay_ms(), 1000);
    network.poll(due + 100, false, 0);
    assert_eq!(network.retry_at_ms(), due + 1100);
}

#[test]
fn jitter_moves_the_next_attempt() {
    let mut network = supervisor();
    network.connect(credentials());
    network.association_finished(Err(AssociationError::RadioFault), 1000, 123);
    assert_eq!(network.retry_at_ms(), 1000 + 2000 + 123);
    let due = network.retry_at_ms();
    network.poll(due, false, 0);
    network.association_finished(Err(AssociationError::RadioFault), 10000, 1001);
    assert_eq!(network.retry_at_ms(), 10000 + 4000);
}

#[test]
fn report_without_an_attempt_changes_nothing() {
    let mut network = supervisor();
    assert_eq!(network.association_finished(Ok(()), 10, 0), NetworkState::Disconnected);
    assert_eq!(
        network.association_finished(Err(AssociationError::Timeout), 10, 0),
        NetworkState::Disconnected
    );
    assert_eq!(network.budget().failures(), 0);
    assert_eq!(network.retry_at_ms(), 0);
    network.connect(credentials());
    network.association_finished(Ok(()), 20, 0);
    assert_eq!(
        network.association_finished(Err(AssociationError::Timeout), 30, 0),
        NetworkState::Connected
    );
    assert_eq!(network.budget().failures(), 0);
}

#[test]
fn ticks_before_the_first_connect_start_nothing() {
    let mut network = supervisor();
    for now in [0u64, 1, 1000, 30000, u64::MAX] {
        assert_eq!(network.poll(now, false, 0), NetworkAction::Nothing);
        assert_eq!(network.poll(now, true, 0), NetworkAction::Nothing);
        assert_eq!(network.status(), NetworkState::Disconnected);
    }
    assert_eq!(network.connect(credentials()), NetworkAction::Associate);
    network.association_finished(Err(AssociationError::Timeout), 100, 0);
    assert_eq!(network.poll(2099, false, 0), NetworkAction::Nothing);
    assert_eq!(network.poll(2100, false, 0), NetworkAction::Associate);
}
