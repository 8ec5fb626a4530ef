use anylist_cli::auth::Credentials;
use anylist_cli::connection::{ConnectionMonitor, ConnectionState, Event, Trigger};

const STATES: [ConnectionState; 5] = [
    ConnectionState::Connecting,
    ConnectionState::Connected,
    ConnectionState::Reconnecting,
    ConnectionState::Disconnected,
    ConnectionState::Closed,
];

const TRIGGERS: [Trigger; 6] = [
    Trigger::HandshakeSucceeded,
    Trigger::TransportDropped,
    Trigger::ResumeSucceeded,
    Trigger::RetriesExhausted,
    Trigger::DisconnectRequested,
    Trigger::TransportFailed,
];

fn credentials() -> Credentials {
    Credentials {
        access_token: String::from("a"),
        refresh_token: String::from("r"),
        user_id: String::from("u"),
        is_premium: false,
    }
}

fn monitor_in(state: ConnectionState) -> ConnectionMonitor {
    let mut monitor = ConnectionMonitor::new(&credentials());
    match state {
        ConnectionState::Connecting => {}
        ConnectionState::Connected => {
            monitor.apply(Trigger::HandshakeSucceeded);
        }
        ConnectionState::Reconnecting => {
            monitor.apply(Trigger::HandshakeSucceeded);
            monitor.apply(Trigger::TransportDropped);
        }
        ConnectionState::Disconnected => {
            monitor.apply(Trigger::TransportFailed);
        }
        ConnectionState::Closed => {
            monitor.apply(Trigger::DisconnectRequested);
        }
    }
    assert_eq!(monitor.state(), state);
    monitor
}

#[test]
fn new_monitor_is_connecting() {
    assert_eq!(ConnectionMonitor::new(&credentials()).state(), ConnectionState::Connecting);
}

#[test]
fn handshake_connects() {
    let mut monitor = monitor_in(ConnectionState::Connecting);
    assert_eq!(monitor.apply(Trigger::HandshakeSucceeded), ConnectionState::Connected);
    assert_eq!(monitor.state(), ConnectionState::Connected);
}

#[test]
fn drop_leads_to_reconnecting() {
    let mut monitor = monitor_in(ConnectionState::Connected);
    assert_eq!(monitor.apply(Trigger::TransportDropped), ConnectionState::Reconnecting);
}

#[test]
fn resume_leads_back_to_connected() {
    let mut monitor = monitor_in(ConnectionState::Reconnecting);
    assert_eq!(monitor.apply(Trigger::ResumeSucceeded), ConnectionState::Connected);
}

#[test]
fn exhausted_retries_disconnect() {
    let mut monitor = monitor_in(ConnectionState::Reconnecting);
    assert_eq!(monitor.apply(Trigger::RetriesExhausted), ConnectionState::Disconnected);
}

#[test]
fn disconnect_closes_every_live_stage() {
    for state in [
        ConnectionState::Connecting,
        ConnectionState::Connected,
        ConnectionState::Reconnecting,
    ] {
        let mut monitor = monitor_in(state);
        monitor.disconnect();
        assert_eq!(monitor.state(), ConnectionState::Closed);
    }
}

#[test]
fn disconnect_is_idempotent() {
    let mut monitor = monitor_in(ConnectionState::Connected);
    monitor.disconnect();
    monitor.disconnect();
    assert_eq!(monitor.state(), ConnectionState::Closed);
    let mut lost = monitor_in(ConnectionState::Disconnected);
    lost.disconnect();
    assert_eq!(lost.state(), ConnectionState::Disconnected);
}

#[test]
fn transport_failure_disconnects_every_live_stage() {
    for state in [
        ConnectionState::Connecting,
        ConnectionState::Connected,
        ConnectionState::Reconnecting,
    ] {
        let mut monitor = monitor_in(state);
        assert_eq!(monitor.apply(Trigger::TransportFailed), ConnectionState::Disconnected);
    }
}

#[test]
fn final_stages_absorb_every_trigger_and_report() {
    for state in [ConnectionState::Disconnected, ConnectionState::Closed] {
        assert!(state.is_terminal());
        for trigger in TRIGGERS {
            let mut monitor = monitor_in(state);
            assert_eq!(monitor.apply(trigger), state);
        }
        for reported in STATES {
            let mut monitor = monitor_in(state);
            assert_eq!(monitor.observe(reported), state);
        }
    }
}

#[test]
fn live_stages_are_not_final() {
    assert!(!ConnectionState::Connecting.is_terminal());
    assert!(!ConnectionState::Connected.is_terminal());
    assert!(!ConnectionState::Reconnecting.is_terminal());
}

#[test]
fn triggers_that_do_not_apply_change_nothing() {
    let mut monitor = monitor_in(ConnectionState::Connecting);
    assert_eq!(monitor.apply(Trigger::TransportDropped), ConnectionState::Connecting);
    assert_eq!(monitor.apply(Trigger::ResumeSucceeded), ConnectionState::Connecting);
    assert_eq!(monitor.apply(Trigger::RetriesExhausted), ConnectionState::Connecting);
    let mut monitor = monitor_in(ConnectionState::Connected);
    assert_eq!(monitor.apply(Trigger::HandshakeSucceeded), ConnectionState::Connected);
    assert_eq!(monitor.apply(Trigger::ResumeSucceeded), ConnectionState::Connected);
    assert_eq!(monitor.apply(Trigger::RetriesExhausted), ConnectionState::Connected);
    let mut monitor = monitor_in(ConnectionState::Reconnecting);
    assert_eq!(monitor.apply(Trigger::HandshakeSucceeded), ConnectionState::Reconnecting);
    assert_eq!(monitor.apply(Trigger::TransportDropped), ConnectionState::Reconnecting);
}

#[test]
fn no_trigger_leads_from_connected_to_connecting() {
    for state in STATES {
        for trigger in TRIGGERS {
            let mut monitor = monitor_in(state);
            let next = monitor.apply(trigger);
            if next == ConnectionState::Connecting {
                assert_eq!(state, ConnectionState::Connecting);
            }
        }
    }
}

#[test]
fn no_report_leads_from_connected_to_connecting() {
    for state in STATES {
        for reported in STATES {
            let mut monitor = monitor_in(state);
            let next = monitor.observe(reported);
            if next == ConnectionState::Connecting {
                assert_eq!(state, ConnectionState::Connecting);
            }
        }
    }
}

#[test]
fn report_of_connecting_after_the_handshake_shows_as_reconnecting() {
    let mut monitor = monitor_in(ConnectionState::Connected);
    assert_eq!(monitor.observe(ConnectionState::Connecting), ConnectionState::Reconnecting);
    let mut monitor = monitor_in(ConnectionState::Reconnecting);
    assert_eq!(monitor.observe(ConnectionState::Connecting), ConnectionState::Reconnecting);
    let mut monitor = monitor_in(ConnectionState::Connecting);
    assert_eq!(monitor.observe(ConnectionState::Connecting), ConnectionState::Connecting);
}

#[test]
fn reports_are_taken_at_their_word_while_alive() {
    for state in [
        ConnectionState::Connecting,
        ConnectionState::Connected,
        ConnectionState::Reconnecting,
    ] {
        for reported in [
            ConnectionState::Connected,
            ConnectionState::Reconnecting,
            ConnectionState::Disconnected,
            ConnectionState::Closed,
        ] {
            let mut monitor = monitor_in(state);
            assert_eq!(monitor.observe(reported), reported);
            assert_eq!(monitor.state(), reported);
        }
    }
}

#[test]
fn reading_the_state_changes_nothing() {
    let monitor = monitor_in(ConnectionState::Reconnecting);
    assert_eq!(monitor.state(), ConnectionState::Reconnecting);
    assert_eq!(monitor.state(), ConnectionState::Reconnecting);
}

#[test]
fn event_line_has_the_time_in_brackets() {
    let event = Event {
        payload: String::from("ShoppingListsChanged"),
        received_at: String::from("2024-03-09 07:05:59"),
    };
    assert_eq!(event.line(), "[2024-03-09 07:05:59] ShoppingListsChanged");
}

#[test]
fn event_line_keeps_an_empty_payload() {
    let event = Event { payload: String::new(), received_at: String::from("t") };
    assert_eq!(event.line(), "[t] ");
}
