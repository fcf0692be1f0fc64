//! Tests for reply interpretation and the composite command sequences.

use caspar_gui::amcp::client::{AmcpError, AmcpResponse};
use caspar_gui::amcp::commands::{
    all_channel_tests_stop_sequence, channel_test_start_sequence, channel_test_stop_sequence,
    command_failed, extract_xml_value, info_channel_command, info_template_command,
    parse_system_info, parse_version_response, response_payload, response_payload_or_message,
    version_component_command,
};

fn ok_response(code: u16) -> AmcpResponse {
    AmcpResponse { code, message: "OK".to_string(), data: None }
}

fn err_response(code: u16, message: &str) -> AmcpResponse {
    AmcpResponse { code, message: message.to_string(), data: None }
}

#[test]
fn test_parse_version_response() {
    assert_eq!(parse_version_response("2.5.0"), Some("2.5.0".to_string()));
    assert_eq!(parse_version_response("2.5.0\nmore data"), Some("2.5.0".to_string()));
}

#[test]
fn parse_version_response_empty_is_none() {
    assert_eq!(parse_version_response(""), None);
    assert_eq!(parse_version_response("  \r\n "), None);
}

#[test]
fn test_extract_xml_value() {
    let xml = "<system><version>2.5.0</version><channels>2</channels></system>";
    assert_eq!(extract_xml_value(xml, "version"), Some("2.5.0".to_string()));
    assert_eq!(extract_xml_value(xml, "channels"), Some("2".to_string()));
}

#[test]
fn extract_xml_value_missing_tag_is_none() {
    let xml = "<system><version>2.5.0</version></system>";
    assert_eq!(extract_xml_value(xml, "channels"), None);
    assert_eq!(extract_xml_value("<a>unclosed", "a"), None);
}

#[test]
fn parse_system_info_reads_version_and_channels() {
    let xml = "<system><version>2.5.0</version><channels>2</channels></system>";
    let si = parse_system_info(xml).unwrap();
    assert_eq!(si.version, Some("2.5.0".to_string()));
    assert_eq!(si.channels, 2);

    let si = parse_system_info("<system><channels>abc</channels></system>").unwrap();
    assert_eq!(si.version, None);
    assert_eq!(si.channels, 0);
}

#[test]
fn command_builders() {
    assert_eq!(version_component_command("server"), "VERSION server");
    assert_eq!(info_channel_command(2), "INFO 2");
    assert_eq!(info_template_command(1, 10), "INFO 1-10");
}

#[test]
fn command_failed_carries_code_and_message() {
    let e = command_failed("VERSION", &err_response(501, "FAILED"));
    match e {
        AmcpError::Protocol(m) => assert_eq!(m, "VERSION command failed: 501 FAILED"),
        other => panic!("expected protocol error, got {:?}", other),
    }
}

#[test]
fn response_payload_prefers_data() {
    let mut r = ok_response(201);
    assert_eq!(response_payload(&r), "");
    assert_eq!(response_payload_or_message(&r), "OK");
    r.data = Some("payload".to_string());
    assert_eq!(response_payload(&r), "payload");
    assert_eq!(response_payload_or_message(&r), "payload");
}

#[test]
fn start_sequence_commands_in_order() {
    let seq = channel_test_start_sequence(1, "http://127.0.0.1:9966");
    assert!(!seq.is_best_effort());
    assert_eq!(seq.command_count(), 3);
    assert_eq!(
        seq.next_command().unwrap(),
        "PLAY 1-20 [HTML] http://127.0.0.1:9966/key-fill-identifier.html?mode=fill&id=1"
    );
}

#[test]
fn start_sequence_stops_at_failing_step() {
    let mut seq = channel_test_start_sequence(1, "http://127.0.0.1:9966");
    let first = seq.next_command().unwrap();
    assert!(first.starts_with("PLAY 1-20 "));
    seq.on_response(&ok_response(202)).unwrap();

    let second = seq.next_command().unwrap();
    assert!(second.starts_with("PLAY 1-19 "));
    match seq.on_response(&err_response(500, "SERVER ERROR")) {
        Err(AmcpError::Protocol(m)) => {
            assert_eq!(m, "Failed to load key pattern: 500 SERVER ERROR");
        },
        other => panic!("expected protocol error, got {:?}", other),
    }

    // The failing step aborts the sequence: the third command is never
    // offered, and the first step's effect stays uncompensated.
    assert!(seq.next_command().is_none());
    assert!(seq.is_aborted());
    assert_eq!(seq.steps_taken(), 1);
    assert!(!seq.is_complete());
}

#[test]
fn start_sequence_completes_on_success() {
    let mut seq = channel_test_start_sequence(3, "http://host:1");
    let mut issued = Vec::new();
    while let Some(cmd) = seq.next_command() {
        issued.push(cmd);
        seq.on_response(&ok_response(202)).unwrap();
    }
    assert_eq!(issued.len(), 3);
    assert_eq!(issued[2], "MIXER 3-19 KEYER 1");
    assert!(seq.is_complete());
}

#[test]
fn stop_sequence_suppresses_errors() {
    let mut seq = channel_test_stop_sequence(1);
    assert!(seq.is_best_effort());
    assert_eq!(seq.next_command().unwrap(), "CLEAR 1-20");
    // The first compensating command fails on the server; the sequence
    // still attempts the second and reports completion.
    seq.on_response(&err_response(500, "ERROR")).unwrap();
    assert_eq!(seq.next_command().unwrap(), "CLEAR 1-19");
    seq.on_response(&ok_response(202)).unwrap();
    assert!(seq.next_command().is_none());
    assert!(seq.is_complete());
    assert!(!seq.is_aborted());
}

#[test]
fn stop_all_covers_every_channel() {
    let mut seq = all_channel_tests_stop_sequence(2);
    assert!(seq.is_best_effort());
    assert_eq!(seq.command_count(), 4);
    let mut issued = Vec::new();
    while let Some(cmd) = seq.next_command() {
        issued.push(cmd);
        seq.on_response(&err_response(500, "ERROR")).unwrap();
    }
    assert_eq!(issued, vec!["CLEAR 1-20", "CLEAR 1-19", "CLEAR 2-20", "CLEAR 2-19"]);
    assert!(seq.is_complete());
}

#[test]
fn stop_all_with_zero_channels_is_empty() {
    let seq = all_channel_tests_stop_sequence(0);
    assert_eq!(seq.command_count(), 0);
    assert!(seq.is_complete());
    assert!(seq.next_command().is_none());
}
