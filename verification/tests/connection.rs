use flyg::domain::Notification;
use flyg::simconnect::connection::{ConnectError, ConnectionStatus, DisplayError, SimConnect};
use flyg::simconnect::host::{HostCall, TextStyle, CLIENT_NAME, HOST_UNSPECIFIED_FAILURE};
use flyg::simconnect::identifiers::Event;
use flyg::simconnect::record::{RawRecord, RECORD_SESSION_OPENED};

const HANDLE: usize = 0x5eed_cafe;

fn connected() -> SimConnect {
    let mut connection = SimConnect::new();
    assert_eq!(connection.connect(0, HANDLE), Ok(()));
    connection
}

#[test]
fn new_instance_is_not_connected() {
    let mut connection = SimConnect::new();
    assert_eq!(connection.status(), ConnectionStatus::Disconnected);
    assert!(!connection.holds_session());
    assert_eq!(connection.probe_call(), None);
    assert!(!connection.is_connected(None));
    assert!(!connection.is_connected(Some(0)));
    assert_eq!(connection.status(), ConnectionStatus::Disconnected);
}

#[test]
fn connect_opens_under_the_client_name() {
    let connection = SimConnect::new();
    assert_eq!(CLIENT_NAME, "flyg-msfs-client");
    assert_eq!(connection.open_call(), Ok(HostCall::Open { client_name: "flyg-msfs-client" }));
}

#[test]
fn connect_stores_the_handle_on_success() {
    let mut connection = SimConnect::new();
    assert_eq!(connection.connect(0, HANDLE), Ok(()));
    assert_eq!(connection.status(), ConnectionStatus::Connected);
    assert!(connection.holds_session());
    assert_eq!(connection.probe_call(), Some(HostCall::QueryLastPacketId { handle: HANDLE }));
    assert_eq!(connection.dequeue_call(), Some(HostCall::GetNextDispatch { handle: HANDLE }));
}

#[test]
fn connect_reports_the_status_code_of_the_host() {
    let mut connection = SimConnect::new();
    assert_eq!(connection.connect(0x1, HANDLE), Err(ConnectError::OpenFailed { code: 1 }));
    assert_eq!(connection.status(), ConnectionStatus::Disconnected);
    assert!(!connection.holds_session());
    assert_eq!(
        connection.connect(HOST_UNSPECIFIED_FAILURE, 0),
        Err(ConnectError::OpenFailed { code: HOST_UNSPECIFIED_FAILURE })
    );
    assert_eq!(connection.connect(0, HANDLE), Ok(()));
    assert_eq!(connection.status(), ConnectionStatus::Connected);
}

#[test]
fn connect_twice_fails_fast_and_keeps_the_session() {
    let mut connection = connected();
    assert_eq!(connection.open_call(), Err(ConnectError::AlreadyConnected));
    assert_eq!(connection.connect(0, 99), Err(ConnectError::AlreadyConnected));
    assert_eq!(connection.connect(5, 99), Err(ConnectError::AlreadyConnected));
    assert_eq!(connection.probe_call(), Some(HostCall::QueryLastPacketId { handle: HANDLE }));
    assert_eq!(connection.status(), ConnectionStatus::Connected);
}

#[test]
fn liveness_probe_decides_whether_connected() {
    let mut connection = connected();
    assert!(connection.is_connected(Some(0)));
    assert_eq!(connection.status(), ConnectionStatus::Connected);
    assert!(!connection.is_connected(Some(HOST_UNSPECIFIED_FAILURE)));
    assert_eq!(connection.status(), ConnectionStatus::Disconnected);
    assert!(connection.holds_session());
    assert_eq!(connection.probe_call(), Some(HostCall::QueryLastPacketId { handle: HANDLE }));
    assert_eq!(connection.open_call(), Err(ConnectError::AlreadyConnected));
    assert!(!connection.is_connected(None));
    assert!(connection.is_connected(Some(0)));
    assert_eq!(connection.status(), ConnectionStatus::Connected);
}

#[test]
fn close_releases_once() {
    let mut connection = connected();
    assert_eq!(connection.close(), Some(HostCall::Close { handle: HANDLE }));
    assert_eq!(connection.close(), None);
    assert_eq!(connection.close(), None);
    assert_eq!(connection.status(), ConnectionStatus::Disconnected);
    assert!(!connection.holds_session());
}

#[test]
fn close_without_a_session_does_nothing() {
    let mut connection = SimConnect::new();
    assert_eq!(connection.close(), None);
    assert_eq!(connection.close(), None);
}

#[test]
fn close_releases_a_lost_session_too() {
    let mut connection = connected();
    assert!(!connection.is_connected(Some(-1)));
    assert_eq!(connection.close(), Some(HostCall::Close { handle: HANDLE }));
    assert_eq!(connection.close(), None);
}

#[test]
fn nothing_reaches_the_host_after_close() {
    let mut connection = connected();
    let _ = connection.close();
    assert_eq!(connection.probe_call(), None);
    assert!(!connection.is_connected(Some(0)));
    assert_eq!(connection.dequeue_call(), None);
    let record = RawRecord::signal(RECORD_SESSION_OPENED);
    assert_eq!(connection.get_next_notification(0, Some(&record)), None);
    assert_eq!(
        connection.display_message_to_user("hello".to_string(), 5),
        Err(DisplayError::NotConnected)
    );
    assert_eq!(connection.open_call(), Ok(HostCall::Open { client_name: CLIENT_NAME }));
    assert_eq!(connection.connect(0, 7), Ok(()));
    assert_eq!(connection.probe_call(), Some(HostCall::QueryLastPacketId { handle: 7 }));
}

#[test]
fn next_notification_needs_a_session_and_a_successful_call() {
    let connection = connected();
    let record = RawRecord::signal(RECORD_SESSION_OPENED);
    assert_eq!(connection.get_next_notification(0, Some(&record)), Some(Notification::Connected));
    assert_eq!(connection.get_next_notification(HOST_UNSPECIFIED_FAILURE, Some(&record)), None);
    assert_eq!(connection.get_next_notification(3, Some(&record)), None);
    assert_eq!(connection.get_next_notification(0, None), None);
    let fresh = SimConnect::new();
    assert_eq!(fresh.get_next_notification(0, Some(&record)), None);
}

#[test]
fn text_is_sent_in_white_with_its_length() {
    let connection = connected();
    assert_eq!(
        connection.display_message_to_user("Cleared for takeoff".to_string(), 10),
        Ok(HostCall::Text {
            handle: HANDLE,
            style: TextStyle::PrintWhite,
            seconds: 10,
            event: Event::UserTextDisplay,
            size: 20,
            message: "Cleared for takeoff".to_string(),
        })
    );
    assert_eq!(
        connection.display_message_to_user(String::new(), 0),
        Ok(HostCall::Text {
            handle: HANDLE,
            style: TextStyle::PrintWhite,
            seconds: 0,
            event: Event::UserTextDisplay,
            size: 1,
            message: String::new(),
        })
    );
}

#[test]
fn text_length_counts_bytes() {
    let connection = connected();
    match connection.display_message_to_user("Grüße".to_string(), 1) {
        Ok(HostCall::Text { size, .. }) => assert_eq!(size, 8),
        other => panic!("expected a text call, got {:?}", other),
    }
}

#[test]
fn text_with_a_zero_byte_is_refused() {
    let connection = connected();
    assert_eq!(
        connection.display_message_to_user("a\0b".to_string(), 1),
        Err(DisplayError::InteriorNul)
    );
    assert_eq!(
        connection.display_message_to_user("\0".to_string(), 1),
        Err(DisplayError::InteriorNul)
    );
    assert_eq!(
        SimConnect::new().display_message_to_user("a\0b".to_string(), 1),
        Err(DisplayError::NotConnected)
    );
}

#[test]
fn only_zero_reports_success() {
    assert!(flyg::simconnect::host::succeeded(0));
    assert!(!flyg::simconnect::host::succeeded(1));
    assert!(!flyg::simconnect::host::succeeded(-1));
    assert!(!flyg::simconnect::host::succeeded(HOST_UNSPECIFIED_FAILURE));
}
