use esp8266::commands::{AT_commands, AT_response};
use esp8266::engine::{
    DeviceState, EngineAction, Exchange, ExchangeState, RETRY_DELAY_MS,
};

fn awaiting(cmd: AT_commands) -> Exchange {
    let (mut exchange, _wire, _terminator) = Exchange::begin(cmd).unwrap();
    exchange.mark_sent();
    exchange
}

#[test]
fn begin_refuses_commands_outside_the_allow_list() {
    // the refusal comes before any transport work, instead of the silent
    // sentinel exchange that could never finish
    assert!(Exchange::begin(AT_commands::CWQAP).is_err());
    assert!(Exchange::begin(AT_commands::GMR).is_err());
    assert!(Exchange::begin(AT_commands::AT).is_ok());
}

#[test]
fn begin_hands_out_the_encoding() {
    let (exchange, wire, terminator) = Exchange::begin(AT_commands::CWMODE(1)).unwrap();
    assert_eq!(exchange.state, ExchangeState::Sending);
    assert_eq!(exchange.expected, AT_response::OK);
    assert_eq!(wire, b"AT+CWMODE=1".to_vec());
    assert!(terminator);
}

#[test]
fn the_expected_reply_satisfies() {
    let mut dev = DeviceState::new();
    let mut exchange = awaiting(AT_commands::AT);
    let action = exchange.on_response(AT_response::OK, &mut dev);
    assert_eq!(action, EngineAction::Finished);
    assert!(exchange.is_satisfied());
    assert_eq!(dev, DeviceState::new());
}

#[test]
fn one_error_then_success_retransmits_exactly_once() {
    let mut dev = DeviceState::new();
    let mut exchange = awaiting(AT_commands::AT);

    let action = exchange.on_response(AT_response::ERROR, &mut dev);
    assert_eq!(action, EngineAction::Retransmit);
    assert_eq!(exchange.state, ExchangeState::Retrying);
    // the error itself never touches the device state
    assert_eq!(dev, DeviceState::new());

    exchange.mark_retransmitted();
    let action = exchange.on_response(AT_response::OK, &mut dev);
    assert_eq!(action, EngineAction::Finished);
    assert!(exchange.is_satisfied());
    assert_eq!(dev, DeviceState::new());
}

#[test]
fn already_connected_satisfies_without_retransmission() {
    let mut dev = DeviceState::new();
    let mut exchange = awaiting(AT_commands::CWJAP("ssid", "pwd"));
    let action = exchange.on_response(AT_response::ALREADY_CONNECTED, &mut dev);
    assert_eq!(action, EngineAction::Finished);
    assert!(exchange.is_satisfied());
    assert_eq!(dev, DeviceState::new());
}

#[test]
fn link_notifications_update_the_device_state_and_keep_waiting() {
    let mut dev = DeviceState::new();
    let mut exchange = awaiting(AT_commands::AT);

    let action = exchange.on_response(AT_response::WIFI_CONNECTED, &mut dev);
    assert_eq!(action, EngineAction::KeepWaiting);
    assert!(exchange.is_awaiting());
    assert!(dev.link_established);
    assert!(!dev.address_acquired);

    let action = exchange.on_response(AT_response::WIFI_GOT_IP, &mut dev);
    assert_eq!(action, EngineAction::KeepWaiting);
    assert!(dev.link_established);
    assert!(dev.address_acquired);

    // link-down clears both flags at once
    let action = exchange.on_response(AT_response::WIFI_DISCONNECT, &mut dev);
    assert_eq!(action, EngineAction::KeepWaiting);
    assert!(exchange.is_awaiting());
    assert!(!dev.link_established);
    assert!(!dev.address_acquired);
    assert_eq!(dev.address, None);
}

#[test]
fn unrecognized_replies_pace_the_retry_and_leave_the_state_alone() {
    let mut dev = DeviceState::new();
    dev.link_established = true;
    let before = dev;

    let mut exchange = awaiting(AT_commands::AT);
    let action = exchange.on_response(AT_response::UNKNOWN_COMMAND, &mut dev);
    assert_eq!(action, EngineAction::DelayThenRetransmit);
    assert_eq!(exchange.state, ExchangeState::Retrying);
    assert_eq!(dev, before);

    exchange.mark_retransmitted();
    let action = exchange.on_response(AT_response::FAIL, &mut dev);
    assert_eq!(action, EngineAction::DelayThenRetransmit);
    assert_eq!(dev, before);
}

#[test]
fn a_read_failure_keeps_the_exchange_waiting() {
    let exchange = awaiting(AT_commands::AT);
    assert_eq!(exchange.on_read_failure(), EngineAction::KeepWaiting);
    assert!(exchange.is_awaiting());
}

#[test]
fn the_pacing_delay_is_two_hundred_milliseconds() {
    assert_eq!(RETRY_DELAY_MS, 200);
}
