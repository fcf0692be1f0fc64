//! Tests for the connection state machine and response classification.

use caspar_gui::amcp::client::{AmcpClient, AmcpError, AmcpResponse};

#[test]
fn send_without_connect_fails_not_connected() {
    let client = AmcpClient::new();
    match client.begin_send("VERSION") {
        Err(AmcpError::NotConnected) => {},
        other => panic!("expected NotConnected, got {:?}", other),
    }
    assert!(!client.is_connected());
    assert!(client.connection_info().is_none());
}

#[test]
fn connect_records_host_and_port() {
    let mut client = AmcpClient::new();
    client.mark_connected("localhost", 5250);
    assert!(client.is_connected());
    let (host, port) = client.connection_info().unwrap();
    assert_eq!(host, "localhost");
    assert_eq!(port, 5250);
    let wire = client.begin_send("VERSION").unwrap();
    assert_eq!(wire, "VERSION\r\n");
}

#[test]
fn disconnect_is_idempotent() {
    let mut client = AmcpClient::new();
    client.mark_connected("host", 1);
    client.disconnect();
    assert!(!client.is_connected());
    client.disconnect();
    assert!(!client.is_connected());
    assert!(matches!(client.begin_send("X"), Err(AmcpError::NotConnected)));
}

#[test]
fn reconnect_replaces_connection() {
    let mut client = AmcpClient::new();
    client.mark_connected("a", 1);
    client.mark_connected("b", 2);
    let (host, port) = client.connection_info().unwrap();
    assert_eq!(host, "b");
    assert_eq!(port, 2);
}

#[test]
fn dial_address_formats_host_and_port() {
    assert_eq!(AmcpClient::dial_address("localhost", 5250), "localhost:5250");
    assert_eq!(AmcpClient::dial_address("10.0.0.7", 0), "10.0.0.7:0");
}

#[test]
fn classification_boundaries() {
    let resp = |code: u16| AmcpResponse { code, message: String::new(), data: None };
    assert!(!resp(199).is_success());
    assert!(resp(200).is_success());
    assert!(resp(299).is_success());
    assert!(!resp(300).is_success());
    assert!(!resp(399).is_error());
    assert!(resp(400).is_error());
    assert!(resp(500).is_error());
    assert!(!resp(100).is_success());
    assert!(!resp(100).is_error());
}

#[test]
fn error_descriptions() {
    assert_eq!(AmcpError::NotConnected.describe(), "Not connected to server");
    assert_eq!(
        AmcpError::Connection("refused".to_string()).describe(),
        "Connection error: refused"
    );
    assert_eq!(AmcpError::Send("broken".to_string()).describe(), "Send error: broken");
    assert_eq!(AmcpError::Receive("closed".to_string()).describe(), "Receive error: closed");
    assert_eq!(AmcpError::Protocol("bad".to_string()).describe(), "Protocol error: bad");
}
