//! Tests for the AMCP envelope codec: status-line parsing, data-block
//! framing, and the encode/decode round trip.

use caspar_gui::amcp::client::AmcpError;
use caspar_gui::amcp::codec::{
    decode_envelope, encode_command, format_status_line, parse_response_line,
    response_carries_data,
};

fn lines(v: &[&str]) -> Vec<String> {
    v.iter().map(|s| s.to_string()).collect()
}

#[test]
fn test_parse_response_line() {
    let (code, msg) = parse_response_line("200 OK").unwrap();
    assert_eq!(code, 200);
    assert_eq!(msg, "OK");

    let (code, msg) = parse_response_line("201 VERSION OK").unwrap();
    assert_eq!(code, 201);
    assert_eq!(msg, "VERSION OK");

    let (code, msg) = parse_response_line("404 ERROR").unwrap();
    assert_eq!(code, 404);
    assert_eq!(msg, "ERROR");
}

#[test]
fn parse_response_line_code_only() {
    let (code, msg) = parse_response_line("200").unwrap();
    assert_eq!(code, 200);
    assert_eq!(msg, "");
}

#[test]
fn parse_response_line_rejects_empty() {
    match parse_response_line("") {
        Err(AmcpError::Protocol(m)) => assert_eq!(m, "Invalid response code: "),
        other => panic!("expected protocol error, got {:?}", other),
    }
}

#[test]
fn parse_response_line_rejects_non_numeric() {
    match parse_response_line("ABC DEF") {
        Err(AmcpError::Protocol(m)) => assert_eq!(m, "Invalid response code: ABC DEF"),
        other => panic!("expected protocol error, got {:?}", other),
    }
}

#[test]
fn parse_response_line_rejects_out_of_range_code() {
    assert!(parse_response_line("70000 TOO BIG").is_err());
    let (code, _) = parse_response_line("65535 EDGE").unwrap();
    assert_eq!(code, 65535);
}

#[test]
fn encode_appends_crlf_once() {
    assert_eq!(encode_command("PLAY 1-20 x"), "PLAY 1-20 x\r\n");
    assert_eq!(encode_command(""), "\r\n");
}

#[test]
fn decode_plain_ok() {
    let (r, used) = decode_envelope(&lines(&["200 OK"])).unwrap();
    assert_eq!(r.code, 200);
    assert_eq!(r.message, "OK");
    assert!(r.data.is_none());
    assert_eq!(used, 1);
}

#[test]
fn decode_ok_suffix_reads_no_data() {
    let (r, used) = decode_envelope(&lines(&["201 VERSION OK\r\n"])).unwrap();
    assert_eq!(r.code, 201);
    assert_eq!(r.message, "VERSION OK");
    assert!(r.data.is_none());
    assert_eq!(used, 1);
}

#[test]
fn decode_data_block() {
    let (r, used) =
        decode_envelope(&lines(&["200 DATA\r\n", "line1\r\n", "line2\r\n", "\r\n"])).unwrap();
    assert_eq!(r.code, 200);
    assert_eq!(r.message, "DATA");
    assert_eq!(r.data.as_deref(), Some("line1\nline2"));
    assert_eq!(used, 4);
}

#[test]
fn decode_error_reads_single_line() {
    let (r, used) = decode_envelope(&lines(&["404 ERROR\r\n", "junk\r\n"])).unwrap();
    assert_eq!(r.code, 404);
    assert_eq!(r.message, "ERROR");
    assert!(r.data.is_none());
    assert_eq!(used, 1);
    assert!(r.is_error());
    assert!(!r.is_success());
}

#[test]
fn decode_empty_message_reads_no_data() {
    let (r, used) = decode_envelope(&lines(&["202\r\n", "junk\r\n"])).unwrap();
    assert_eq!(r.code, 202);
    assert_eq!(r.message, "");
    assert!(r.data.is_none());
    assert_eq!(used, 1);
}

#[test]
fn decode_data_block_empty_is_none() {
    let (r, used) = decode_envelope(&lines(&["200 DATA\r\n", "\r\n"])).unwrap();
    assert_eq!(r.code, 200);
    assert!(r.data.is_none());
    assert_eq!(used, 2);
}

#[test]
fn decode_data_block_ends_at_input_end() {
    let (r, used) = decode_envelope(&lines(&["200 DATA\r\n", "only\r\n"])).unwrap();
    assert_eq!(r.data.as_deref(), Some("only"));
    assert_eq!(used, 2);
}

#[test]
fn decode_malformed_status_is_protocol_error() {
    assert!(matches!(
        decode_envelope(&lines(&["nonsense\r\n"])),
        Err(AmcpError::Protocol(_))
    ));
}

#[test]
fn carries_data_cases() {
    assert!(response_carries_data(200, "200 DATA"));
    assert!(!response_carries_data(200, "200 OK"));
    assert!(!response_carries_data(201, "201 VERSION OK"));
    assert!(!response_carries_data(200, "200"));
    assert!(!response_carries_data(404, "404 ERROR"));
    assert!(!response_carries_data(101, "101 DATA"));
}

#[test]
fn status_line_round_trip() {
    for line in ["200 OK", "201 VERSION OK", "404 ERROR", "200", "500 INTERNAL ERROR"] {
        let (code, msg) = parse_response_line(line).unwrap();
        assert_eq!(format_status_line(code, &msg), line);
    }
}

#[test]
fn format_status_line_empty_message() {
    assert_eq!(format_status_line(200, ""), "200");
    assert_eq!(format_status_line(400, "x"), "400 x");
}
