//! Tests for DeckLink device listing, duplex handling, the test-pattern
//! URL builder and the system version model.

use caspar_gui::decklink::devices::{
    get_api_version, get_device_by_id, get_device_by_index, get_driver_version, init,
    list_devices, DeckLinkDevice, DeckLinkError,
};
use caspar_gui::decklink::duplex::{
    get_duplex_mode, requires_restart_for_mode_change, set_duplex_mode, ConnectorDirection,
    ConnectorMapping, DuplexMode,
};
use caspar_gui::http_server::{get_test_pattern_url, TestServer};
use caspar_gui::system::scanner::{ScannerEndpoint, ScannerError};
use caspar_gui::system::SystemVersions;

#[test]
fn test_pattern_url() {
    let url = get_test_pattern_url("http://127.0.0.1:9966", 1, "fill");
    assert_eq!(url, "http://127.0.0.1:9966/key-fill-identifier.html?mode=fill&id=1");
}

#[test]
fn test_server_state() {
    let mut server = TestServer::new();
    assert!(!server.is_running());
    assert!(server.url().is_none());
    server.mark_started(9966);
    assert!(server.is_running());
    assert_eq!(server.port(), Some(9966));
    assert_eq!(server.url().as_deref(), Some("http://127.0.0.1:9966"));
    server.mark_stopped();
    assert!(!server.is_running());
}

#[test]
fn device_listing_and_lookup() {
    init().unwrap();
    let devices = list_devices().unwrap();
    assert_eq!(devices.len(), 3);
    assert_eq!(devices[0].persistent_id, "0x12345678");
    assert!(devices[0].is_multi_port());
    assert!(!devices[2].is_multi_port());

    let d = get_device_by_id("0x87654321").unwrap();
    assert_eq!(d.index, 3);
    assert_eq!(d.model_name, "DeckLink Mini Monitor 4K");

    match get_device_by_id("0xDEAD") {
        Err(DeckLinkError::DeviceNotFound(m)) => assert_eq!(m, "0xDEAD"),
        other => panic!("expected DeviceNotFound, got {:?}", other),
    }

    let d = get_device_by_index(2).unwrap();
    assert_eq!(d.persistent_id, "0x12345679");
    match get_device_by_index(9) {
        Err(DeckLinkError::DeviceNotFound(m)) => assert_eq!(m, "index 9"),
        other => panic!("expected DeviceNotFound, got {:?}", other),
    }
}

#[test]
fn api_and_driver_versions() {
    assert_eq!(get_api_version().unwrap().as_deref(), Some("15.3 (mock)"));
    assert_eq!(get_driver_version().unwrap().as_deref(), Some("15.3 (mock)"));
}

#[test]
fn duplex_parsing_and_lookup() {
    assert_eq!(DuplexMode::parse_mode("full").unwrap(), DuplexMode::Full);
    assert_eq!(DuplexMode::parse_mode("HALF").unwrap(), DuplexMode::Half);
    match DuplexMode::parse_mode("sideways") {
        Err(DeckLinkError::ConfigError(m)) => {
            assert_eq!(m, "Invalid duplex mode: sideways. Expected 'full' or 'half'");
        },
        other => panic!("expected ConfigError, got {:?}", other),
    }

    let devices = list_devices().unwrap();
    assert_eq!(get_duplex_mode(&devices[0]).unwrap(), Some(DuplexMode::Half));
    assert_eq!(get_duplex_mode(&devices[2]).unwrap(), None);

    let odd = DeckLinkDevice { duplex_mode: Some("upside-down".to_string()), ..devices[0].clone() };
    assert_eq!(get_duplex_mode(&odd).unwrap(), None);

    assert!(set_duplex_mode("0x12345678", DuplexMode::Full).is_ok());
    assert!(requires_restart_for_mode_change());
}

#[test]
fn duplex_names() {
    assert_eq!(DuplexMode::Full.display_name(), "Full Duplex (Key/Fill pair)");
    assert_eq!(DuplexMode::Half.as_str(), "half");
    assert!(DuplexMode::Half.description().contains("independent"));
}

#[test]
fn duo2_mappings_default_to_output() {
    let half = ConnectorMapping::duo2_half_duplex();
    assert_eq!(half.sdi1, ConnectorDirection::Output);
    assert_eq!(half.sdi2, ConnectorDirection::Output);
    assert!(half.sdi3.is_none());
    let full = ConnectorMapping::duo2_full_duplex();
    assert_eq!(full.sdi1, ConnectorDirection::Output);
    assert!(full.sdi4.is_none());
}

#[test]
fn scanner_endpoint_url() {
    let e = ScannerEndpoint::default();
    assert_eq!(e.host, "localhost");
    assert_eq!(e.port, 8000);
    assert_eq!(e.url(), "http://localhost:8000");
    let e = ScannerEndpoint { host: "10.0.0.2".to_string(), port: 8100 };
    assert_eq!(e.url(), "http://10.0.0.2:8100");
}

#[test]
fn scanner_error_descriptions() {
    assert_eq!(ScannerError::NotRunning.describe(), "Scanner not running");
    assert_eq!(
        ScannerError::ConnectionFailed("refused".to_string()).describe(),
        "Connection failed: refused"
    );
    assert_eq!(
        ScannerError::InvalidResponse("html".to_string()).describe(),
        "Invalid response: html"
    );
}

#[test]
fn system_versions_default_empty() {
    let v = SystemVersions::default();
    assert!(v.caspar_version.is_none());
    assert!(v.decklink_version.is_none());
    assert!(v.ndi_version.is_none());
    assert!(v.scanner_version.is_none());
}
