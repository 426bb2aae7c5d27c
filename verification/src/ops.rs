//! The device-level operations, as the command sequences they run.
//!
//! Each operation is a fixed sequence of exchanges with no logic beyond
//! "every step must succeed".  These functions produce the sequences; the
//! caller runs one exchange per element and stops at the first failure.

use vstd::prelude::*;

use crate::commands::AT_commands;

verus! {

use vstd::string::StringSliceAdditionalSpecFns;

/// Initialization: switch command echoing off, then probe for liveness.
pub fn init_commands() -> (r: Vec<AT_commands<'static>>)
    ensures
        r@.len() == 2,
        r@[0] == AT_commands::<'static>::ATE(false),
        r@[1] == AT_commands::<'static>::AT,
{
    vec![AT_commands::ATE(false), AT_commands::AT]
}

/// Joining an access point: connect with the given credentials, then ask
/// for the assigned address.
pub fn join_ap_commands<'a>(ssid: &'a str, password: &'a str) -> (r: Vec<AT_commands<'a>>)
    ensures
        r@.len() == 2,
        r@[0] == AT_commands::CWJAP(ssid, password),
        r@[1] == AT_commands::<'a>::CIFSR,
{
    vec![AT_commands::CWJAP(ssid, password), AT_commands::CIFSR]
}

/// Fetching the local address.
pub fn get_ip_commands() -> (r: Vec<AT_commands<'static>>)
    ensures
        r@.len() == 1,
        r@[0] == AT_commands::<'static>::CIFSR,
{
    vec![AT_commands::CIFSR]
}

/// Starting a TCP server: station mode, multiple connections, then the
/// server itself on the given port.
pub fn tcp_server_commands(port: u16) -> (r: Vec<AT_commands<'static>>)
    ensures
        r@.len() == 3,
        r@[0] == AT_commands::<'static>::CWMODE(1),
        r@[1] == AT_commands::<'static>::CIPMUX(1),
        r@[2] == AT_commands::<'static>::CIPSERVER_EXT(1, port),
{
    vec![AT_commands::CWMODE(1), AT_commands::CIPMUX(1), AT_commands::CIPSERVER_EXT(1, port)]
}

/// Starting a UDP listener on the given port: station mode, a single
/// connection, a UDP endpoint open to any peer, and a four-byte send slot.
pub fn udp_server_commands(port: u16) -> (r: Vec<AT_commands<'static>>)
    ensures
        r@.len() == 4,
        r@[0] == AT_commands::<'static>::CWMODE(1),
        r@[1] == AT_commands::<'static>::CIPMUX(0),
        (r@[2] matches AT_commands::CIPSTART_EXT(protocol, address, remote_port, local_port, mode)
            && protocol@ == "UDP"@ && address@ == "0.0.0.0"@ && remote_port == port && local_port
            == port && mode == 2),
        r@[3] == AT_commands::<'static>::CIPSEND(4),
{
    vec![
        AT_commands::CWMODE(1),
        AT_commands::CIPMUX(0),
        AT_commands::CIPSTART_EXT("UDP", "0.0.0.0", port, port, 2),
        AT_commands::CIPSEND(4),
    ]
}

/// Sending a payload: announce its byte count, then the raw bytes.
pub fn send_data_commands<'a>(data: &'a str) -> (r: Vec<AT_commands<'a>>)
    requires
        data.spec_bytes().len() <= 65535,
    ensures
        r@.len() == 2,
        (r@[0] matches AT_commands::CIPSEND(length) && length as nat == data.spec_bytes().len()),
        r@[1] == AT_commands::SEND(data),
{
    let length = data.len() as u16;
    vec![AT_commands::CIPSEND(length), AT_commands::SEND(data)]
}

} // verus!
