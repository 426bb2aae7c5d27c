use esp8266::classify::classify_line;
use esp8266::commands::{response_to_bytes, response_to_str, str_to_response, AT_response};

#[test]
fn classifies_success_error_and_link_down() {
    assert_eq!(classify_line(b"OK"), AT_response::OK);
    assert_eq!(classify_line(b"ERROR"), AT_response::ERROR);
    assert_eq!(classify_line(b"WIFI DISCONNECT"), AT_response::WIFI_DISCONNECT);
}

#[test]
fn classifies_every_table_entry() {
    assert_eq!(classify_line(b"FAIL"), AT_response::FAIL);
    assert_eq!(classify_line(b"ready"), AT_response::ready);
    assert_eq!(classify_line(b"ALREADY CONNECTED"), AT_response::ALREADY_CONNECTED);
    assert_eq!(classify_line(b"> "), AT_response::ready_to_send);
    assert_eq!(classify_line(b"WIFI CONNECTED"), AT_response::WIFI_CONNECTED);
    assert_eq!(classify_line(b"WIFI GOT IP"), AT_response::WIFI_GOT_IP);
    assert_eq!(classify_line(b"busy s..."), AT_response::busy_s);
    assert_eq!(classify_line(b"busy p..."), AT_response::busy_p);
    assert_eq!(classify_line(b",CONNECT"), AT_response::X_CONNECT);
    assert_eq!(classify_line(b",CLOSED"), AT_response::X_CLOSED);
    assert_eq!(classify_line(b"+IPD,5:HELLO"), AT_response::IPD);
    assert_eq!(classify_line(b"+STA_CONNECTED:aa:bb"), AT_response::STA_CONNECTED);
    assert_eq!(classify_line(b"+DIST_STA_IP:aa,1.2.3.4"), AT_response::DIST_STA_IP);
    assert_eq!(classify_line(b"+STA_DISCONNECTED:aa"), AT_response::STA_DISCONNECTED);
}

#[test]
fn matching_is_by_prefix_but_the_prompt_is_exact() {
    // any line that merely starts with a pattern matches it ...
    assert_eq!(classify_line(b"OK\r"), AT_response::OK);
    assert_eq!(classify_line(b"ERROR: detail"), AT_response::ERROR);
    assert_eq!(classify_line(b"WIFI DISCONNECTED"), AT_response::WIFI_DISCONNECT);
    // ... except the prompt, which must be the whole line
    assert_eq!(classify_line(b"> x"), AT_response::UNKNOWN_COMMAND);
    assert_eq!(classify_line(b">"), AT_response::UNKNOWN_COMMAND);
}

#[test]
fn unmatched_lines_are_unrecognized() {
    assert_eq!(classify_line(b""), AT_response::UNKNOWN_COMMAND);
    assert_eq!(classify_line(b"Recv 4 bytes"), AT_response::UNKNOWN_COMMAND);
    assert_eq!(classify_line(b"ok"), AT_response::UNKNOWN_COMMAND);
    assert_eq!(classify_line(b" OK"), AT_response::UNKNOWN_COMMAND);
}

#[test]
fn exact_conversion_accepts_only_whole_strings() {
    assert_eq!(str_to_response(b"OK"), AT_response::OK);
    assert_eq!(str_to_response(b"FAIL"), AT_response::FAIL);
    assert_eq!(str_to_response(b"ready"), AT_response::ready);
    assert_eq!(str_to_response(b"ERROR"), AT_response::ERROR);
    assert_eq!(str_to_response(b"ALREADY CONNECTED"), AT_response::ALREADY_CONNECTED);
    assert_eq!(str_to_response(b">"), AT_response::ready_to_send);
    assert_eq!(str_to_response(b"WIFI CONNECTED"), AT_response::WIFI_CONNECTED);
    assert_eq!(str_to_response(b"WIFI GOT IP"), AT_response::WIFI_GOT_IP);
    assert_eq!(str_to_response(b"WIFI DISCONNECT"), AT_response::WIFI_DISCONNECT);
    assert_eq!(str_to_response(b"busy s..."), AT_response::busy_s);
    assert_eq!(str_to_response(b"busy p..."), AT_response::busy_p);
    assert_eq!(str_to_response(b",CONNECT"), AT_response::X_CONNECT);
    assert_eq!(str_to_response(b",CLOSED"), AT_response::X_CLOSED);
    assert_eq!(str_to_response(b"+IPD"), AT_response::IPD);
    assert_eq!(str_to_response(b"+STA_CONNECTED:"), AT_response::STA_CONNECTED);
    assert_eq!(str_to_response(b"+DIST_STA_IP:"), AT_response::DIST_STA_IP);
    assert_eq!(str_to_response(b"+STA_DISCONNECTED:"), AT_response::STA_DISCONNECTED);
    // a prefix is not enough here
    assert_eq!(str_to_response(b"OK extra"), AT_response::UNKNOWN_COMMAND);
    assert_eq!(str_to_response(b""), AT_response::UNKNOWN_COMMAND);
}

#[test]
fn canonical_strings_round_trip_through_both_conversions() {
    let kinds = [
        AT_response::OK,
        AT_response::FAIL,
        AT_response::ready,
        AT_response::ERROR,
        AT_response::ALREADY_CONNECTED,
        AT_response::ready_to_send,
        AT_response::WIFI_CONNECTED,
        AT_response::WIFI_GOT_IP,
        AT_response::WIFI_DISCONNECT,
        AT_response::busy_s,
        AT_response::busy_p,
        AT_response::X_CONNECT,
        AT_response::X_CLOSED,
        AT_response::IPD,
        AT_response::STA_CONNECTED,
        AT_response::DIST_STA_IP,
        AT_response::STA_DISCONNECTED,
    ];
    for kind in kinds {
        let bytes = response_to_bytes(kind);
        assert_eq!(response_to_str(kind).as_bytes(), bytes.as_slice());
        assert_eq!(str_to_response(bytes.as_slice()), kind);
    }
}

#[test]
fn intent_round_trips_for_the_expected_kinds() {
    // the expected kind of every allow-list command is OK or ready; its
    // canonical string classifies back to exactly that kind
    assert_eq!(classify_line(response_to_bytes(AT_response::OK).as_slice()), AT_response::OK);
    assert_eq!(
        classify_line(response_to_bytes(AT_response::ready).as_slice()),
        AT_response::ready
    );
}
