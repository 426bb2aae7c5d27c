//! The command encoder: maps a structured command to its wire text, the
//! response kind that ends the exchange, and whether the line terminator is
//! appended when the text is sent.
//!
//! Only the commands of the allow-list have a wire encoding.  Every other
//! catalog entry encodes to a sentinel unknown-command marker whose expected
//! kind no line ever classifies to; callers that want to refuse such a
//! command before touching the transport test [`is_supported`] first (the
//! exchange engine does so).

use vstd::prelude::*;

use crate::commands::{AT_commands, AT_response};

verus! {

use vstd::string::StringSliceAdditionalSpecFns;

/// The decimal ASCII rendering of `n`: most significant digit first, no
/// padding, no sign.
pub open spec fn dec_bytes(n: nat) -> Seq<u8>
    decreases n,
{
    if n < 10 {
        seq![(48 + n) as u8]
    } else {
        dec_bytes(n / 10).push((48 + n % 10) as u8)
    }
}

/// Renders a number as decimal ASCII digits.
pub fn u16_to_dec(n: u16) -> (r: Vec<u8>)
    ensures
        r@ == dec_bytes(n as nat),
    decreases n,
{
    if n < 10 {
        let d: u8 = 48 + n as u8;
        let r: Vec<u8> = vec![d];
        proof {
            assert(r@ =~= dec_bytes(n as nat));
        }
        r
    } else {
        let mut r = u16_to_dec(n / 10);
        let d: u8 = 48 + (n % 10) as u8;
        r.push(d);
        proof {
            assert(r@ =~= dec_bytes(n as nat));
        }
        r
    }
}

/// The commands that have a wire encoding.
pub open spec fn in_allow_list(cmd: AT_commands) -> bool {
    match cmd {
        AT_commands::AT => true,
        AT_commands::ATE(_) => true,
        AT_commands::RST => true,
        AT_commands::CWJAP(_, _) => true,
        AT_commands::CWMODE(_) => true,
        AT_commands::CIFSR => true,
        AT_commands::CIPMUX(_) => true,
        AT_commands::CIPSERVER(_) => true,
        AT_commands::CIPSERVER_EXT(_, _) => true,
        AT_commands::CIPSTART(_, _, _) => true,
        AT_commands::CIPSTART_EXT(_, _, _, _, _) => true,
        AT_commands::CIPSEND(_) => true,
        AT_commands::SEND(_) => true,
        _ => false,
    }
}

/// The response kind that ends an exchange for this command: `ready` after a
/// reset, `OK` for every other encodable command, and the unmatchable
/// `UNKNOWN_COMMAND` for catalog entries outside the allow-list.
pub open spec fn expected_response(cmd: AT_commands) -> AT_response {
    if (cmd matches AT_commands::RST) {
        AT_response::ready
    } else if in_allow_list(cmd) {
        AT_response::OK
    } else {
        AT_response::UNKNOWN_COMMAND
    }
}

/// Whether the line terminator is appended when the wire text is sent.
/// False only for the raw payload send, whose bytes are the payload itself.
pub open spec fn appends_terminator(cmd: AT_commands) -> bool {
    !(cmd matches AT_commands::SEND(_))
}

/// The wire text of a command.  String arguments are wrapped in double
/// quotes verbatim; numeric arguments are rendered as decimal.
pub open spec fn wire_bytes(cmd: AT_commands) -> Seq<u8> {
    match cmd {
        AT_commands::AT => "AT".spec_bytes(),
        AT_commands::ATE(echo) => if echo {
            "ATE1".spec_bytes()
        } else {
            "ATE0".spec_bytes()
        },
        AT_commands::RST => "AT+RST".spec_bytes(),
        AT_commands::CWJAP(ssid, pwd) => "AT+CWJAP=\"".spec_bytes() + ssid.spec_bytes()
            + "\",\"".spec_bytes() + pwd.spec_bytes() + "\"".spec_bytes(),
        AT_commands::CWMODE(mode) => "AT+CWMODE=".spec_bytes() + dec_bytes(mode as nat),
        AT_commands::CIFSR => "AT+CIFSR".spec_bytes(),
        AT_commands::CIPMUX(mode) => "AT+CIPMUX=".spec_bytes() + dec_bytes(mode as nat),
        AT_commands::CIPSERVER(mode) => "AT+CIPSERVER=".spec_bytes() + dec_bytes(mode as nat),
        AT_commands::CIPSERVER_EXT(mode, port) => "AT+CIPSERVER=".spec_bytes()
            + dec_bytes(mode as nat) + ",".spec_bytes() + dec_bytes(port as nat),
        AT_commands::CIPSTART(protocol, address, port) => "AT+CIPSTART=\"".spec_bytes()
            + protocol.spec_bytes() + "\",\"".spec_bytes() + address.spec_bytes()
            + "\",".spec_bytes() + dec_bytes(port as nat),
        AT_commands::CIPSTART_EXT(protocol, address, remote_port, local_port, mode) =>
            "AT+CIPSTART=\"".spec_bytes() + protocol.spec_bytes() + "\",\"".spec_bytes()
            + address.spec_bytes() + "\",".spec_bytes() + dec_bytes(remote_port as nat)
            + ",".spec_bytes() + dec_bytes(local_port as nat) + ",".spec_bytes()
            + dec_bytes(mode as nat),
        AT_commands::CIPSEND(length) => "AT+CIPSEND=".spec_bytes() + dec_bytes(length as nat),
        AT_commands::SEND(data) => data.spec_bytes(),
        _ => "commands::AT_commands::NO_COMMAND".spec_bytes(),
    }
}

/// Is this command in the allow-list?
pub fn is_supported(cmd: AT_commands) -> (r: bool)
    ensures
        r == in_allow_list(cmd),
{
    match cmd {
        AT_commands::AT => true,
        AT_commands::ATE(_) => true,
        AT_commands::RST => true,
        AT_commands::CWJAP(_, _) => true,
        AT_commands::CWMODE(_) => true,
        AT_commands::CIFSR => true,
        AT_commands::CIPMUX(_) => true,
        AT_commands::CIPSERVER(_) => true,
        AT_commands::CIPSERVER_EXT(_, _) => true,
        AT_commands::CIPSTART(_, _, _) => true,
        AT_commands::CIPSTART_EXT(_, _, _, _, _) => true,
        AT_commands::CIPSEND(_) => true,
        AT_commands::SEND(_) => true,
        _ => false,
    }
}

/// Encodes a command: wire text, the response kind that ends the exchange,
/// and whether the line terminator is appended on send.
pub fn encode<'a>(cmd: AT_commands<'a>) -> (r: (Vec<u8>, AT_response, bool))
    ensures
        r.0@ == wire_bytes(cmd),
        r.1 == expected_response(cmd),
        r.2 == appends_terminator(cmd),
{
    match cmd {
        AT_commands::AT => {
            let mut w: Vec<u8> = Vec::new();
            w.extend_from_slice("AT".as_bytes());
            proof {
                assert(w@ =~= wire_bytes(cmd));
            }
            (w, AT_response::OK, true)
        },
        AT_commands::ATE(echo) => {
            let mut w: Vec<u8> = Vec::new();
            if echo {
                w.extend_from_slice("ATE1".as_bytes());
            } else {
                w.extend_from_slice("ATE0".as_bytes());
            }
            proof {
                assert(w@ =~= wire_bytes(cmd));
            }
            (w, AT_response::OK, true)
        },
        AT_commands::RST => {
            let mut w: Vec<u8> = Vec::new();
            w.extend_from_slice("AT+RST".as_bytes());
            proof {
                assert(w@ =~= wire_bytes(cmd));
            }
            (w, AT_response::ready, true)
        },
        AT_commands::CWJAP(ssid, pwd) => {
            let mut w: Vec<u8> = Vec::new();
            w.extend_from_slice("AT+CWJAP=\"".as_bytes());
            w.extend_from_slice(ssid.as_bytes());
            w.extend_from_slice("\",\"".as_bytes());
            w.extend_from_slice(pwd.as_bytes());
            w.extend_from_slice("\"".as_bytes());
            proof {
                assert(w@ =~= wire_bytes(cmd));
            }
            (w, AT_response::OK, true)
        },
        AT_commands::CWMODE(mode) => {
            let mut w: Vec<u8> = Vec::new();
            w.extend_from_slice("AT+CWMODE=".as_bytes());
            let digits = u16_to_dec(mode as u16);
            w.extend_from_slice(digits.as_slice());
            proof {
                assert(w@ =~= wire_bytes(cmd));
            }
            (w, AT_response::OK, true)
        },
        AT_commands::CIFSR => {
            let mut w: Vec<u8> = Vec::new();
            w.extend_from_slice("AT+CIFSR".as_bytes());
            proof {
                assert(w@ =~= wire_bytes(cmd));
            }
            (w, AT_response::OK, true)
        },
        AT_commands::CIPMUX(mode) => {
            let mut w: Vec<u8> = Vec::new();
            w.extend_from_slice("AT+CIPMUX=".as_bytes());
            let digits = u16_to_dec(mode as u16);
            w.extend_from_slice(digits.as_slice());
            proof {
                assert(w@ =~= wire_bytes(cmd));
            }
            (w, AT_response::OK, true)
        },
        AT_commands::CIPSERVER(mode) => {
            let mut w: Vec<u8> = Vec::new();
            w.extend_from_slice("AT+CIPSERVER=".as_bytes());
            let digits = u16_to_dec(mode as u16);
            w.extend_from_slice(digits.as_slice());
            proof {
                assert(w@ =~= wire_bytes(cmd));
            }
            (w, AT_response::OK, true)
        },
        AT_commands::CIPSERVER_EXT(mode, port) => {
            let mut w: Vec<u8> = Vec::new();
            w.extend_from_slice("AT+CIPSERVER=".as_bytes());
            let digits = u16_to_dec(mode as u16);
            w.extend_from_slice(digits.as_slice());
            w.extend_from_slice(",".as_bytes());
            let digits = u16_to_dec(port);
            w.extend_from_slice(digits.as_slice());
            proof {
                assert(w@ =~= wire_bytes(cmd));
            }
            (w, AT_response::OK, true)
        },
        AT_commands::CIPSTART(protocol, address, port) => {
            let mut w: Vec<u8> = Vec::new();
            w.extend_from_slice("AT+CIPSTART=\"".as_bytes());
            w.extend_from_slice(protocol.as_bytes());
            w.extend_from_slice("\",\"".as_bytes());
            w.extend_from_slice(address.as_bytes());
            w.extend_from_slice("\",".as_bytes());
            let digits = u16_to_dec(port);
            w.extend_from_slice(digits.as_slice());
            proof {
                assert(w@ =~= wire_bytes(cmd));
            }
            (w, AT_response::OK, true)
        },
        AT_commands::CIPSTART_EXT(protocol, address, remote_port, local_port, mode) => {
            let mut w: Vec<u8> = Vec::new();
            w.extend_from_slice("AT+CIPSTART=\"".as_bytes());
            w.extend_from_slice(protocol.as_bytes());
            w.extend_from_slice("\",\"".as_bytes());
            w.extend_from_slice(address.as_bytes());
            w.extend_from_slice("\",".as_bytes());
            let digits = u16_to_dec(remote_port);
            w.extend_from_slice(digits.as_slice());
            w.extend_from_slice(",".as_bytes());
            let digits = u16_to_dec(local_port);
            w.extend_from_slice(digits.as_slice());
            w.extend_from_slice(",".as_bytes());
            let digits = u16_to_dec(mode as u16);
            w.extend_from_slice(digits.as_slice());
            proof {
                assert(w@ =~= wire_bytes(cmd));
            }
            (w, AT_response::OK, true)
        },
        AT_commands::CIPSEND(length) => {
            let mut w: Vec<u8> = Vec::new();
            w.extend_from_slice("AT+CIPSEND=".as_bytes());
            let digits = u16_to_dec(length);
            w.extend_from_slice(digits.as_slice());
            proof {
                assert(w@ =~= wire_bytes(cmd));
            }
            (w, AT_response::OK, true)
        },
        AT_commands::SEND(data) => {
            let mut w: Vec<u8> = Vec::new();
            w.extend_from_slice(data.as_bytes());
            proof {
                assert(w@ =~= wire_bytes(cmd));
            }
            (w, AT_response::OK, false)
        },
        _ => {
            let mut w: Vec<u8> = Vec::new();
            w.extend_from_slice("commands::AT_commands::NO_COMMAND".as_bytes());
            proof {
                assert(w@ =~= wire_bytes(cmd));
            }
            (w, AT_response::UNKNOWN_COMMAND, true)
        },
    }
}

/// The line terminator: carriage return, line feed.
pub open spec fn terminator_bytes() -> Seq<u8> {
    seq![13u8, 10u8]
}

/// Suffixes the wire text with the line terminator when the encoding asks
/// for one; raw payload sends go out untouched.
pub fn wire_with_terminator(wire: &[u8], append: bool) -> (r: Vec<u8>)
    ensures
        append ==> r@ == wire@ + terminator_bytes(),
        !append ==> r@ == wire@,
{
    let mut out: Vec<u8> = Vec::new();
    out.extend_from_slice(wire);
    if append {
        out.push(13u8);
        out.push(10u8);
        proof {
            assert(out@ =~= wire@ + terminator_bytes());
        }
    } else {
        proof {
            assert(out@ =~= wire@);
        }
    }
    out
}

} // verus!
