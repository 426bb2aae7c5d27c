use esp8266::commands::{AT_commands, AT_response};
use esp8266::encoder::{encode, is_supported, u16_to_dec, wire_with_terminator};

fn encoded(cmd: AT_commands) -> (Vec<u8>, AT_response, bool) {
    encode(cmd)
}

#[test]
fn encodes_liveness_probe() {
    let (wire, expected, terminator) = encoded(AT_commands::AT);
    assert_eq!(wire, b"AT".to_vec());
    assert_eq!(expected, AT_response::OK);
    assert!(terminator);
}

#[test]
fn encodes_echo_switch() {
    let (wire, expected, terminator) = encoded(AT_commands::ATE(true));
    assert_eq!(wire, b"ATE1".to_vec());
    assert_eq!(expected, AT_response::OK);
    assert!(terminator);

    let (wire, _, terminator) = encoded(AT_commands::ATE(false));
    assert_eq!(wire, b"ATE0".to_vec());
    assert!(terminator);
}

#[test]
fn encodes_reset_expecting_ready() {
    let (wire, expected, terminator) = encoded(AT_commands::RST);
    assert_eq!(wire, b"AT+RST".to_vec());
    assert_eq!(expected, AT_response::ready);
    assert!(terminator);
}

#[test]
fn encodes_join_network() {
    // joining a network renders both strings quoted, appends the
    // terminator, and expects plain success
    let (wire, expected, terminator) = encoded(AT_commands::CWJAP("ssid", "pwd"));
    assert_eq!(wire, b"AT+CWJAP=\"ssid\",\"pwd\"".to_vec());
    assert_eq!(expected, AT_response::OK);
    assert!(terminator);
}

#[test]
fn encodes_station_mode() {
    let (wire, expected, terminator) = encoded(AT_commands::CWMODE(1));
    assert_eq!(wire, b"AT+CWMODE=1".to_vec());
    assert_eq!(expected, AT_response::OK);
    assert!(terminator);
}

#[test]
fn encodes_address_query() {
    let (wire, expected, _) = encoded(AT_commands::CIFSR);
    assert_eq!(wire, b"AT+CIFSR".to_vec());
    assert_eq!(expected, AT_response::OK);
}

#[test]
fn encodes_multiplexing_and_servers() {
    let (wire, _, _) = encoded(AT_commands::CIPMUX(0));
    assert_eq!(wire, b"AT+CIPMUX=0".to_vec());

    let (wire, _, _) = encoded(AT_commands::CIPSERVER(1));
    assert_eq!(wire, b"AT+CIPSERVER=1".to_vec());

    let (wire, _, _) = encoded(AT_commands::CIPSERVER_EXT(1, 333));
    assert_eq!(wire, b"AT+CIPSERVER=1,333".to_vec());
}

#[test]
fn encodes_connections() {
    let (wire, expected, terminator) = encoded(AT_commands::CIPSTART("TCP", "10.0.0.7", 8080));
    assert_eq!(wire, b"AT+CIPSTART=\"TCP\",\"10.0.0.7\",8080".to_vec());
    assert_eq!(expected, AT_response::OK);
    assert!(terminator);

    let (wire, _, _) = encoded(AT_commands::CIPSTART_EXT("UDP", "0.0.0.0", 2000, 2000, 2));
    assert_eq!(wire, b"AT+CIPSTART=\"UDP\",\"0.0.0.0\",2000,2000,2".to_vec());
}

#[test]
fn encodes_payload_announcement() {
    let (wire, expected, terminator) = encoded(AT_commands::CIPSEND(4));
    assert_eq!(wire, b"AT+CIPSEND=4".to_vec());
    assert_eq!(expected, AT_response::OK);
    assert!(terminator);
}

#[test]
fn raw_send_gets_no_terminator() {
    // the wire bytes of a raw send are the payload itself: suffixing the
    // terminator would corrupt it
    let (wire, expected, terminator) = encoded(AT_commands::SEND("TEST"));
    assert_eq!(wire, b"TEST".to_vec());
    assert_eq!(expected, AT_response::OK);
    assert!(!terminator);
}

#[test]
fn unknown_commands_encode_to_the_sentinel() {
    let (wire, expected, terminator) = encoded(AT_commands::CWQAP);
    assert_eq!(wire, b"commands::AT_commands::NO_COMMAND".to_vec());
    assert_eq!(expected, AT_response::UNKNOWN_COMMAND);
    assert!(terminator);
    assert!(!is_supported(AT_commands::CWQAP));
    assert!(!is_supported(AT_commands::NO_COMMAND));
    assert!(!is_supported(AT_commands::PING("example")));
    assert!(is_supported(AT_commands::AT));
    assert!(is_supported(AT_commands::SEND("x")));
}

#[test]
fn decimal_rendering_is_plain() {
    assert_eq!(u16_to_dec(0), b"0".to_vec());
    assert_eq!(u16_to_dec(7), b"7".to_vec());
    assert_eq!(u16_to_dec(10), b"10".to_vec());
    assert_eq!(u16_to_dec(200), b"200".to_vec());
    assert_eq!(u16_to_dec(65535), b"65535".to_vec());
}

#[test]
fn terminator_is_cr_lf() {
    assert_eq!(wire_with_terminator(b"AT", true), b"AT\r\n".to_vec());
    assert_eq!(wire_with_terminator(b"TEST", false), b"TEST".to_vec());
}
