use flyg::domain::{AircraftPosition, Binary64, Notification};
use flyg::simconnect::host::HOST_UNSPECIFIED_FAILURE;
use flyg::simconnect::poller::{
    Poller, PollerAction, PollerConfig, PollerEvent, PollerState, DEFAULT_BACKOFF_MILLIS,
    DEFAULT_INTERVAL_MILLIS,
};
use flyg::simconnect::record::{RawRecord, RECORD_NO_DATA, RECORD_SESSION_CLOSED};

fn draining() -> Poller {
    let mut poller = Poller::new(PollerConfig::standard());
    assert_eq!(
        poller.step(PollerEvent::ConnectionChecked { connected: true }),
        PollerAction::Dequeue
    );
    poller
}

#[test]
fn standard_pauses() {
    let config = PollerConfig::standard();
    assert_eq!(config.backoff_millis, 5000);
    assert_eq!(config.interval_millis, 100);
    assert_eq!(DEFAULT_BACKOFF_MILLIS, 5000);
    assert_eq!(DEFAULT_INTERVAL_MILLIS, 100);
}

#[test]
fn poller_starts_by_checking_the_connection() {
    let mut poller = Poller::new(PollerConfig::standard());
    assert_eq!(poller.current_state(), PollerState::WaitingForConnection);
    assert_eq!(poller.step(PollerEvent::Resumed { shutdown: false }), PollerAction::CheckConnection);
    assert_eq!(poller.current_state(), PollerState::WaitingForConnection);
}

#[test]
fn poller_backs_off_while_disconnected() {
    let mut poller = Poller::new(PollerConfig { backoff_millis: 750, interval_millis: 20 });
    for _ in 0..3 {
        assert_eq!(
            poller.step(PollerEvent::Resumed { shutdown: false }),
            PollerAction::CheckConnection
        );
        assert_eq!(
            poller.step(PollerEvent::ConnectionChecked { connected: false }),
            PollerAction::Pause { deliver: None, millis: 750 }
        );
        assert_eq!(poller.current_state(), PollerState::WaitingForConnection);
    }
}

#[test]
fn poller_delivers_what_the_decoder_finds() {
    let mut poller = draining();
    assert_eq!(poller.current_state(), PollerState::Draining);
    let closed = RawRecord::signal(RECORD_SESSION_CLOSED);
    assert_eq!(
        poller.step(PollerEvent::Dequeued { code: 0, record: Some(closed) }),
        PollerAction::Pause { deliver: Some(Notification::Disconnected), millis: 100 }
    );
    let mut payload = Vec::new();
    payload.extend_from_slice(&1.5f64.to_le_bytes());
    payload.extend_from_slice(&(-2.5f64).to_le_bytes());
    payload.extend_from_slice(&3000.0f64.to_le_bytes());
    let expected = AircraftPosition {
        latitude: Binary64 { bits: 1.5f64.to_bits() },
        longitude: Binary64 { bits: (-2.5f64).to_bits() },
        altitude: Binary64 { bits: 3000.0f64.to_bits() },
    };
    assert_eq!(
        poller.step(PollerEvent::Dequeued {
            code: 0,
            record: Some(RawRecord::object_data(0, payload)),
        }),
        PollerAction::Pause { deliver: Some(Notification::PositionUpdate(expected)), millis: 100 }
    );
}

#[test]
fn poller_pauses_briefly_after_an_empty_poll() {
    let mut poller = draining();
    let no_data = RawRecord::signal(RECORD_NO_DATA);
    assert_eq!(
        poller.step(PollerEvent::Dequeued { code: 0, record: Some(no_data) }),
        PollerAction::Pause { deliver: None, millis: 100 }
    );
    assert_eq!(
        poller.step(PollerEvent::Dequeued { code: HOST_UNSPECIFIED_FAILURE, record: None }),
        PollerAction::Pause { deliver: None, millis: 100 }
    );
    assert_eq!(
        poller.step(PollerEvent::Dequeued { code: 0, record: None }),
        PollerAction::Pause { deliver: None, millis: 100 }
    );
    assert_eq!(poller.current_state(), PollerState::Draining);
}

#[test]
fn poller_drops_a_failed_dequeue() {
    let mut poller = draining();
    let closed = RawRecord::signal(RECORD_SESSION_CLOSED);
    assert_eq!(
        poller.step(PollerEvent::Dequeued { code: 12, record: Some(closed) }),
        PollerAction::Pause { deliver: None, millis: 100 }
    );
}

#[test]
fn poller_drops_records_while_waiting() {
    let mut poller = Poller::new(PollerConfig::standard());
    let closed = RawRecord::signal(RECORD_SESSION_CLOSED);
    assert_eq!(
        poller.step(PollerEvent::Dequeued { code: 0, record: Some(closed) }),
        PollerAction::Pause { deliver: None, millis: 5000 }
    );
    assert_eq!(poller.current_state(), PollerState::WaitingForConnection);
}

#[test]
fn poller_goes_back_to_waiting_when_the_connection_drops() {
    let mut poller = draining();
    assert_eq!(
        poller.step(PollerEvent::ConnectionChecked { connected: false }),
        PollerAction::Pause { deliver: None, millis: 5000 }
    );
    assert_eq!(poller.current_state(), PollerState::WaitingForConnection);
    assert_eq!(poller.step(PollerEvent::Resumed { shutdown: false }), PollerAction::CheckConnection);
    assert_eq!(
        poller.step(PollerEvent::ConnectionChecked { connected: true }),
        PollerAction::Dequeue
    );
    assert_eq!(poller.current_state(), PollerState::Draining);
}

#[test]
fn poller_stops_on_shutdown_and_stays_stopped() {
    let mut poller = draining();
    assert_eq!(poller.step(PollerEvent::Resumed { shutdown: true }), PollerAction::Stop);
    assert_eq!(poller.current_state(), PollerState::Stopped);
    assert_eq!(poller.step(PollerEvent::Resumed { shutdown: false }), PollerAction::Stop);
    assert_eq!(poller.step(PollerEvent::ConnectionChecked { connected: true }), PollerAction::Stop);
    let closed = RawRecord::signal(RECORD_SESSION_CLOSED);
    assert_eq!(
        poller.step(PollerEvent::Dequeued { code: 0, record: Some(closed) }),
        PollerAction::Stop
    );
    assert_eq!(poller.current_state(), PollerState::Stopped);
}

#[test]
fn poller_does_not_stop_on_a_disconnect() {
    let mut poller = draining();
    for _ in 0..5 {
        let action = poller.step(PollerEvent::ConnectionChecked { connected: false });
        assert_ne!(action, PollerAction::Stop);
        assert_ne!(poller.current_state(), PollerState::Stopped);
    }
}

#[test]
fn dequeue_that_was_not_made_counts_as_a_connection_found_down() {
    let mut poller = draining();
    assert_eq!(
        poller.step(PollerEvent::dequeued(None)),
        PollerAction::Pause { deliver: None, millis: 5000 }
    );
    assert_eq!(poller.current_state(), PollerState::WaitingForConnection);
    let closed = RawRecord::signal(RECORD_SESSION_CLOSED);
    let mut poller = draining();
    assert_eq!(
        poller.step(PollerEvent::dequeued(Some((0, Some(closed))))),
        PollerAction::Pause { deliver: Some(Notification::Disconnected), millis: 100 }
    );
}
