use esp8266::commands::AT_commands;
use esp8266::encoder::encode;
use esp8266::ops::{
    get_ip_commands, init_commands, join_ap_commands, send_data_commands, tcp_server_commands,
    udp_server_commands,
};

/// The wire text of each command of a sequence.
fn wires(commands: Vec<AT_commands>) -> Vec<Vec<u8>> {
    commands.into_iter().map(|cmd| encode(cmd).0).collect()
}

#[test]
fn initialization_switches_echo_off_then_probes() {
    let wires = wires(init_commands());
    assert_eq!(wires, vec![b"ATE0".to_vec(), b"AT".to_vec()]);
}

#[test]
fn joining_connects_then_asks_for_the_address() {
    let wires = wires(join_ap_commands("net", "secret"));
    assert_eq!(
        wires,
        vec![b"AT+CWJAP=\"net\",\"secret\"".to_vec(), b"AT+CIFSR".to_vec()]
    );
}

#[test]
fn fetching_the_address_is_one_query() {
    let wires = wires(get_ip_commands());
    assert_eq!(wires, vec![b"AT+CIFSR".to_vec()]);
}

#[test]
fn the_tcp_server_sequence() {
    let wires = wires(tcp_server_commands(333));
    assert_eq!(
        wires,
        vec![
            b"AT+CWMODE=1".to_vec(),
            b"AT+CIPMUX=1".to_vec(),
            b"AT+CIPSERVER=1,333".to_vec(),
        ]
    );
}

#[test]
fn the_udp_listener_sequence() {
    let wires = wires(udp_server_commands(2000));
    assert_eq!(
        wires,
        vec![
            b"AT+CWMODE=1".to_vec(),
            b"AT+CIPMUX=0".to_vec(),
            b"AT+CIPSTART=\"UDP\",\"0.0.0.0\",2000,2000,2".to_vec(),
            b"AT+CIPSEND=4".to_vec(),
        ]
    );
}

#[test]
fn sending_announces_the_byte_count_then_the_payload() {
    let wires = wires(send_data_commands("TEST"));
    assert_eq!(wires, vec![b"AT+CIPSEND=4".to_vec(), b"TEST".to_vec()]);
}
