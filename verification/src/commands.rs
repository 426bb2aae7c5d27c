//! The AT command catalog and the closed set of response kinds, together with
//! the byte-level conversions between response kinds and their canonical wire
//! strings.
//!
//! String parameters of a command must not contain the line terminator or the
//! `,`/`"` field syntax of the wire format: the encoder does not escape them.

use vstd::prelude::*;

verus! {

use vstd::string::StringSliceAdditionalSpecFns;

/// The four syntactic shapes an AT command can take on the wire.
#[derive(Clone, Copy, PartialEq, Eq, Structural, Debug)]
pub enum AT_type {
    /// `AT+<x>=?` — queries the range of values a set command accepts.
    Test,
    /// `AT+<x>?` — returns the current value of a parameter.
    Query,
    /// `AT+<x>=<...>` — sets user-defined parameters and runs the command.
    SetCmd,
    /// `AT+<x>` — runs a command that takes no parameters.
    Execute,
}

/// The command catalog.  Only the variants listed in
/// [`in_allow_list`](crate::encoder::in_allow_list) have a wire encoding;
/// every other variant is a placeholder that encodes to the sentinel
/// unknown-command marker.
#[derive(Clone, Copy)]
pub enum AT_commands<'a> {
    NO_COMMAND,
    /// Tests AT startup.
    AT,
    /// Restarts the module.
    RST,
    /// Checks version information.
    GMR,
    /// Enters deep-sleep mode for the given number of milliseconds.
    GSLP(u16),
    /// Switches echoing of AT commands on (`true`) or off (`false`).
    ATE(bool),
    /// Restores the factory default settings.
    RESTORE,
    /// The current UART configuration.
    UART,
    /// Configures the sleep modes.
    SLEEP,
    /// Configures a GPIO to wake the module from light-sleep mode.
    WAKEUPGPIO,
    /// Sets the maximum value of the RF TX power.
    RFPOWER,
    /// Sets the RF TX power according to VDD33.
    RFVDD,
    /// Checks the available RAM size.
    SYSRAM,
    /// Checks the ADC value.
    SYSADC,
    /// Sets the configuration of IO pins.
    SYSIOSETCFG,
    /// Gets the configuration of IO pins.
    SYSIOGETCFG,
    /// Configures the direction of GPIO.
    SYSGPIODIR,
    /// Configures the GPIO output level.
    SYSGPIOWRITE,
    /// Checks the GPIO input level.
    SYSGPIOREAD,
    /// System messages.
    SYSMSG,
    /// Sets the Wi-Fi mode: 1 station, 2 soft AP, 3 both.
    CWMODE(u8),
    /// Connects to an access point: `CWJAP(ssid, password)`.
    CWJAP(&'a str, &'a str),
    /// Disconnects from the access point.
    CWQAP,
    /// Configures the soft AP: `CWSAP(ssid, password, channel, encryption)`.
    CWSAP(&'a str, &'a str, u8, u8),
    /// Enables or disables DHCP: `CWDHCP(mode, enable)`.
    CWDHCP(u8, u8),
    /// Whether to auto-connect to the access point on power-up.
    CWAUTOCONN(u8),
    /// Configures the name of the station.
    CWHOSTNAME(&'a str),
    /// Opens a connection: `CIPSTART(protocol, remote address, remote port)`.
    CIPSTART(&'a str, &'a str, u16),
    /// Opens a connection, extended form:
    /// `CIPSTART_EXT(protocol, remote address, remote port, local port, UDP mode)`.
    CIPSTART_EXT(&'a str, &'a str, u16, u16, u8),
    /// Announces that a payload of the given byte count follows.
    CIPSEND(u16),
    /// A raw payload send: the wire bytes are the payload itself.
    SEND(&'a str),
    /// Closes the connection.
    CIPCLOSE,
    /// Gets the local address.
    CIFSR,
    /// Single (0) or multiple (1) connections.
    CIPMUX(u8),
    /// Deletes (0) or creates (1) a server.
    CIPSERVER(u8),
    /// Deletes (0) or creates (1) a server on the given port.
    CIPSERVER_EXT(u8, u16),
    CIPSERVERMAXCONN,
    CIPMODE,
    SAVETRANSLINK,
    CIPSTO,
    /// Pings the given address.
    PING(&'a str),
    CIUPDATE,
    /// Whether `+IPD` reports the remote address and port.
    CIPDINFO(u8),
    IPD,
    CIPRECVMODE,
    CIPRECVDATA,
    CIPRECVLEN,
    CIPSNTPCFG,
    CIPSNTPTIME,
    CIPDNS,
}

/// The closed set of response kinds.  Exactly one kind is produced per
/// classified line; `UNKNOWN_COMMAND` is the default when no prefix matches.
#[derive(Clone, Copy, PartialEq, Eq, Structural, Debug)]
pub enum AT_response {
    UNKNOWN_COMMAND,
    OK,
    FAIL,
    ready,
    ERROR,
    ALREADY_CONNECTED,
    ready_to_send,
    WIFI_CONNECTED,
    WIFI_GOT_IP,
    WIFI_DISCONNECT,
    busy_s,
    busy_p,
    X_CONNECT,
    X_CLOSED,
    IPD,
    STA_CONNECTED,
    DIST_STA_IP,
    STA_DISCONNECTED,
}

/// The canonical wire string of each response kind, as bytes.
pub open spec fn response_bytes(r: AT_response) -> Seq<u8> {
    match r {
        AT_response::UNKNOWN_COMMAND => seq![
            'U' as u8, 'N' as u8, 'K' as u8, 'N' as u8, 'O' as u8, 'W' as u8, 'N' as u8, ' ' as u8,
            'C' as u8, 'O' as u8, 'M' as u8, 'M' as u8, 'A' as u8, 'N' as u8, 'D' as u8,
        ],
        AT_response::OK => seq!['O' as u8, 'K' as u8],
        AT_response::FAIL => seq!['F' as u8, 'A' as u8, 'I' as u8, 'L' as u8],
        AT_response::ready => seq!['r' as u8, 'e' as u8, 'a' as u8, 'd' as u8, 'y' as u8],
        AT_response::ERROR => seq!['E' as u8, 'R' as u8, 'R' as u8, 'O' as u8, 'R' as u8],
        AT_response::ALREADY_CONNECTED => seq![
            'A' as u8, 'L' as u8, 'R' as u8, 'E' as u8, 'A' as u8, 'D' as u8, 'Y' as u8, ' ' as u8,
            'C' as u8, 'O' as u8, 'N' as u8, 'N' as u8, 'E' as u8, 'C' as u8, 'T' as u8, 'E' as u8, 'D' as u8,
        ],
        AT_response::ready_to_send => seq!['>' as u8],
        AT_response::WIFI_CONNECTED => seq![
            'W' as u8, 'I' as u8, 'F' as u8, 'I' as u8, ' ' as u8,
            'C' as u8, 'O' as u8, 'N' as u8, 'N' as u8, 'E' as u8, 'C' as u8, 'T' as u8, 'E' as u8, 'D' as u8,
        ],
        AT_response::WIFI_GOT_IP => seq![
            'W' as u8, 'I' as u8, 'F' as u8, 'I' as u8, ' ' as u8, 'G' as u8, 'O' as u8, 'T' as u8, ' ' as u8, 'I' as u8, 'P' as u8,
        ],
        AT_response::WIFI_DISCONNECT => seq![
            'W' as u8, 'I' as u8, 'F' as u8, 'I' as u8, ' ' as u8,
            'D' as u8, 'I' as u8, 'S' as u8, 'C' as u8, 'O' as u8, 'N' as u8, 'N' as u8, 'E' as u8, 'C' as u8, 'T' as u8,
        ],
        AT_response::busy_s => seq!['b' as u8, 'u' as u8, 's' as u8, 'y' as u8, ' ' as u8, 's' as u8, '.' as u8, '.' as u8, '.' as u8],
        AT_response::busy_p => seq!['b' as u8, 'u' as u8, 's' as u8, 'y' as u8, ' ' as u8, 'p' as u8, '.' as u8, '.' as u8, '.' as u8],
        AT_response::X_CONNECT => seq![',' as u8, 'C' as u8, 'O' as u8, 'N' as u8, 'N' as u8, 'E' as u8, 'C' as u8, 'T' as u8],
        AT_response::X_CLOSED => seq![',' as u8, 'C' as u8, 'L' as u8, 'O' as u8, 'S' as u8, 'E' as u8, 'D' as u8],
        AT_response::IPD => seq!['+' as u8, 'I' as u8, 'P' as u8, 'D' as u8],
        AT_response::STA_CONNECTED => seq![
            '+' as u8, 'S' as u8, 'T' as u8, 'A' as u8, '_' as u8,
            'C' as u8, 'O' as u8, 'N' as u8, 'N' as u8, 'E' as u8, 'C' as u8, 'T' as u8, 'E' as u8, 'D' as u8, ':' as u8,
        ],
        AT_response::DIST_STA_IP => seq![
            '+' as u8, 'D' as u8, 'I' as u8, 'S' as u8, 'T' as u8, '_' as u8, 'S' as u8, 'T' as u8, 'A' as u8, '_' as u8, 'I' as u8, 'P' as u8, ':' as u8,
        ],
        AT_response::STA_DISCONNECTED => seq![
            '+' as u8, 'S' as u8, 'T' as u8, 'A' as u8, '_' as u8,
            'D' as u8, 'I' as u8, 'S' as u8, 'C' as u8, 'O' as u8, 'N' as u8, 'N' as u8, 'E' as u8, 'C' as u8, 'T' as u8, 'E' as u8, 'D' as u8, ':' as u8,
        ],
    }
}

/// Byte-for-byte equality of two slices.
pub fn bytes_eq(a: &[u8], b: &[u8]) -> (r: bool)
    ensures
        r == (a@ == b@),
{
    if a.len() != b.len() {
        return false;
    }
    let mut i: usize = 0;
    while i < a.len()
        invariant
            0 <= i <= a@.len(),
            a@.len() == b@.len(),
            forall|j: int| 0 <= j < i ==> a@[j] == b@[j],
        decreases a@.len() - i,
    {
        if a[i] != b[i] {
            return false;
        }
        i += 1;
    }
    proof {
        assert(a@ =~= b@);
    }
    true
}

/// Does `s` start with `prefix`?
pub fn starts_with(s: &[u8], prefix: &[u8]) -> (r: bool)
    ensures
        r == prefix@.is_prefix_of(s@),
{
    if prefix.len() > s.len() {
        return false;
    }
    let mut i: usize = 0;
    while i < prefix.len()
        invariant
            0 <= i <= prefix@.len(),
            prefix@.len() <= s@.len(),
            forall|j: int| 0 <= j < i ==> s@[j] == prefix@[j],
        decreases prefix@.len() - i,
    {
        if s[i] != prefix[i] {
            assert(!prefix@.is_prefix_of(s@)) by {
                assert(s@.subrange(0, prefix@.len() as int)[i as int] == s@[i as int]);
            }
            return false;
        }
        i += 1;
    }
    proof {
        assert(prefix@ =~= s@.subrange(0, prefix@.len() as int));
    }
    true
}

/// The canonical wire string of a response kind, as an owned byte vector.
pub fn response_to_bytes(response: AT_response) -> (r: Vec<u8>)
    ensures
        r@ == response_bytes(response),
{
    let v: Vec<u8> = match response {
        AT_response::UNKNOWN_COMMAND => vec![
            'U' as u8, 'N' as u8, 'K' as u8, 'N' as u8, 'O' as u8, 'W' as u8, 'N' as u8, ' ' as u8,
            'C' as u8, 'O' as u8, 'M' as u8, 'M' as u8, 'A' as u8, 'N' as u8, 'D' as u8,
        ],
        AT_response::OK => vec!['O' as u8, 'K' as u8],
        AT_response::FAIL => vec!['F' as u8, 'A' as u8, 'I' as u8, 'L' as u8],
        AT_response::ready => vec!['r' as u8, 'e' as u8, 'a' as u8, 'd' as u8, 'y' as u8],
        AT_response::ERROR => vec!['E' as u8, 'R' as u8, 'R' as u8, 'O' as u8, 'R' as u8],
        AT_response::ALREADY_CONNECTED => vec![
            'A' as u8, 'L' as u8, 'R' as u8, 'E' as u8, 'A' as u8, 'D' as u8, 'Y' as u8, ' ' as u8,
            'C' as u8, 'O' as u8, 'N' as u8, 'N' as u8, 'E' as u8, 'C' as u8, 'T' as u8, 'E' as u8, 'D' as u8,
        ],
        AT_response::ready_to_send => vec!['>' as u8],
        AT_response::WIFI_CONNECTED => vec![
            'W' as u8, 'I' as u8, 'F' as u8, 'I' as u8, ' ' as u8,
            'C' as u8, 'O' as u8, 'N' as u8, 'N' as u8, 'E' as u8, 'C' as u8, 'T' as u8, 'E' as u8, 'D' as u8,
        ],
        AT_response::WIFI_GOT_IP => vec![
            'W' as u8, 'I' as u8, 'F' as u8, 'I' as u8, ' ' as u8, 'G' as u8, 'O' as u8, 'T' as u8, ' ' as u8, 'I' as u8, 'P' as u8,
        ],
        AT_response::WIFI_DISCONNECT => vec![
            'W' as u8, 'I' as u8, 'F' as u8, 'I' as u8, ' ' as u8,
            'D' as u8, 'I' as u8, 'S' as u8, 'C' as u8, 'O' as u8, 'N' as u8, 'N' as u8, 'E' as u8, 'C' as u8, 'T' as u8,
        ],
        AT_response::busy_s => vec!['b' as u8, 'u' as u8, 's' as u8, 'y' as u8, ' ' as u8, 's' as u8, '.' as u8, '.' as u8, '.' as u8],
        AT_response::busy_p => vec!['b' as u8, 'u' as u8, 's' as u8, 'y' as u8, ' ' as u8, 'p' as u8, '.' as u8, '.' as u8, '.' as u8],
        AT_response::X_CONNECT => vec![',' as u8, 'C' as u8, 'O' as u8, 'N' as u8, 'N' as u8, 'E' as u8, 'C' as u8, 'T' as u8],
        AT_response::X_CLOSED => vec![',' as u8, 'C' as u8, 'L' as u8, 'O' as u8, 'S' as u8, 'E' as u8, 'D' as u8],
        AT_response::IPD => vec!['+' as u8, 'I' as u8, 'P' as u8, 'D' as u8],
        AT_response::STA_CONNECTED => vec![
            '+' as u8, 'S' as u8, 'T' as u8, 'A' as u8, '_' as u8,
            'C' as u8, 'O' as u8, 'N' as u8, 'N' as u8, 'E' as u8, 'C' as u8, 'T' as u8, 'E' as u8, 'D' as u8, ':' as u8,
        ],
        AT_response::DIST_STA_IP => vec![
            '+' as u8, 'D' as u8, 'I' as u8, 'S' as u8, 'T' as u8, '_' as u8, 'S' as u8, 'T' as u8, 'A' as u8, '_' as u8, 'I' as u8, 'P' as u8, ':' as u8,
        ],
        AT_response::STA_DISCONNECTED => vec![
            '+' as u8, 'S' as u8, 'T' as u8, 'A' as u8, '_' as u8,
            'D' as u8, 'I' as u8, 'S' as u8, 'C' as u8, 'O' as u8, 'N' as u8, 'N' as u8, 'E' as u8, 'C' as u8, 'T' as u8, 'E' as u8, 'D' as u8, ':' as u8,
        ],
    };
    proof {
        assert(v@ =~= response_bytes(response));
    }
    v
}

/// What [`str_to_response`] returns: the response kind whose canonical wire
/// string the input equals exactly, or `UNKNOWN_COMMAND` if it equals none.
pub open spec fn spec_str_to_response(bytes: Seq<u8>) -> AT_response {
    if bytes == response_bytes(AT_response::OK) {
        AT_response::OK
    } else if bytes == response_bytes(AT_response::FAIL) {
        AT_response::FAIL
    } else if bytes == response_bytes(AT_response::ready) {
        AT_response::ready
    } else if bytes == response_bytes(AT_response::ERROR) {
        AT_response::ERROR
    } else if bytes == response_bytes(AT_response::ALREADY_CONNECTED) {
        AT_response::ALREADY_CONNECTED
    } else if bytes == response_bytes(AT_response::ready_to_send) {
        AT_response::ready_to_send
    } else if bytes == response_bytes(AT_response::WIFI_CONNECTED) {
        AT_response::WIFI_CONNECTED
    } else if bytes == response_bytes(AT_response::WIFI_GOT_IP) {
        AT_response::WIFI_GOT_IP
    } else if bytes == response_bytes(AT_response::WIFI_DISCONNECT) {
        AT_response::WIFI_DISCONNECT
    } else if bytes == response_bytes(AT_response::busy_s) {
        AT_response::busy_s
    } else if bytes == response_bytes(AT_response::busy_p) {
        AT_response::busy_p
    } else if bytes == response_bytes(AT_response::X_CONNECT) {
        AT_response::X_CONNECT
    } else if bytes == response_bytes(AT_response::X_CLOSED) {
        AT_response::X_CLOSED
    } else if bytes == response_bytes(AT_response::IPD) {
        AT_response::IPD
    } else if bytes == response_bytes(AT_response::STA_CONNECTED) {
        AT_response::STA_CONNECTED
    } else if bytes == response_bytes(AT_response::DIST_STA_IP) {
        AT_response::DIST_STA_IP
    } else if bytes == response_bytes(AT_response::STA_DISCONNECTED) {
        AT_response::STA_DISCONNECTED
    } else {
        AT_response::UNKNOWN_COMMAND
    }
}

/// Converts a raw reply from the modem to a response kind by exact
/// comparison with each canonical wire string.
pub fn str_to_response(response: &[u8]) -> (r: AT_response)
    ensures
        r == spec_str_to_response(response@),
{
    let pat = response_to_bytes(AT_response::OK);
    if bytes_eq(response, pat.as_slice()) {
        return AT_response::OK;
    }
    let pat = response_to_bytes(AT_response::FAIL);
    if bytes_eq(response, pat.as_slice()) {
        return AT_response::FAIL;
    }
    let pat = response_to_bytes(AT_response::ready);
    if bytes_eq(response, pat.as_slice()) {
        return AT_response::ready;
    }
    let pat = response_to_bytes(AT_response::ERROR);
    if bytes_eq(response, pat.as_slice()) {
        return AT_response::ERROR;
    }
    let pat = response_to_bytes(AT_response::ALREADY_CONNECTED);
    if bytes_eq(response, pat.as_slice()) {
        return AT_response::ALREADY_CONNECTED;
    }
    let pat = response_to_bytes(AT_response::ready_to_send);
    if bytes_eq(response, pat.as_slice()) {
        return AT_response::ready_to_send;
    }
    let pat = response_to_bytes(AT_response::WIFI_CONNECTED);
    if bytes_eq(response, pat.as_slice()) {
        return AT_response::WIFI_CONNECTED;
    }
    let pat = response_to_bytes(AT_response::WIFI_GOT_IP);
    if bytes_eq(response, pat.as_slice()) {
        return AT_response::WIFI_GOT_IP;
    }
    let pat = response_to_bytes(AT_response::WIFI_DISCONNECT);
    if bytes_eq(response, pat.as_slice()) {
        return AT_response::WIFI_DISCONNECT;
    }
    let pat = response_to_bytes(AT_response::busy_s);
    if bytes_eq(response, pat.as_slice()) {
        return AT_response::busy_s;
    }
    let pat = response_to_bytes(AT_response::busy_p);
    if bytes_eq(response, pat.as_slice()) {
        return AT_response::busy_p;
    }
    let pat = response_to_bytes(AT_response::X_CONNECT);
    if bytes_eq(response, pat.as_slice()) {
        return AT_response::X_CONNECT;
    }
    let pat = response_to_bytes(AT_response::X_CLOSED);
    if bytes_eq(response, pat.as_slice()) {
        return AT_response::X_CLOSED;
    }
    let pat = response_to_bytes(AT_response::IPD);
    if bytes_eq(response, pat.as_slice()) {
        return AT_response::IPD;
    }
    let pat = response_to_bytes(AT_response::STA_CONNECTED);
    if bytes_eq(response, pat.as_slice()) {
        return AT_response::STA_CONNECTED;
    }
    let pat = response_to_bytes(AT_response::DIST_STA_IP);
    if bytes_eq(response, pat.as_slice()) {
        return AT_response::DIST_STA_IP;
    }
    let pat = response_to_bytes(AT_response::STA_DISCONNECTED);
    if bytes_eq(response, pat.as_slice()) {
        return AT_response::STA_DISCONNECTED;
    }
    AT_response::UNKNOWN_COMMAND
}

/// Converts a response kind to its canonical wire string.
pub fn response_to_str<'a>(response: AT_response) -> (r: &'a str)
    ensures
        r.spec_bytes() == response_bytes(response),
{
    match response {
        AT_response::UNKNOWN_COMMAND => {
            proof {
                reveal_strlit("UNKNOWN COMMAND");
                ascii_literal_bytes("UNKNOWN COMMAND", response_bytes(response));
            }
            "UNKNOWN COMMAND"
        },
        AT_response::OK => {
            proof {
                reveal_strlit("OK");
                ascii_literal_bytes("OK", response_bytes(response));
            }
            "OK"
        },
        AT_response::FAIL => {
            proof {
                reveal_strlit("FAIL");
                ascii_literal_bytes("FAIL", response_bytes(response));
            }
            "FAIL"
        },
        AT_response::ready => {
            proof {
                reveal_strlit("ready");
                ascii_literal_bytes("ready", response_bytes(response));
            }
            "ready"
        },
        AT_response::ERROR => {
            proof {
                reveal_strlit("ERROR");
                ascii_literal_bytes("ERROR", response_bytes(response));
            }
            "ERROR"
        },
        AT_response::ALREADY_CONNECTED => {
            proof {
                reveal_strlit("ALREADY CONNECTED");
                ascii_literal_bytes("ALREADY CONNECTED", response_bytes(response));
            }
            "ALREADY CONNECTED"
        },
        AT_response::ready_to_send => {
            proof {
                reveal_strlit(">");
                ascii_literal_bytes(">", response_bytes(response));
            }
            ">"
        },
        AT_response::WIFI_CONNECTED => {
            proof {
                reveal_strlit("WIFI CONNECTED");
                ascii_literal_bytes("WIFI CONNECTED", response_bytes(response));
            }
            "WIFI CONNECTED"
        },
        AT_response::WIFI_GOT_IP => {
            proof {
                reveal_strlit("WIFI GOT IP");
                ascii_literal_bytes("WIFI GOT IP", response_bytes(response));
            }
            "WIFI GOT IP"
        },
        AT_response::WIFI_DISCONNECT => {
            proof {
                reveal_strlit("WIFI DISCONNECT");
                ascii_literal_bytes("WIFI DISCONNECT", response_bytes(response));
            }
            "WIFI DISCONNECT"
        },
        AT_response::busy_s => {
            proof {
                reveal_strlit("busy s...");
                ascii_literal_bytes("busy s...", response_bytes(response));
            }
            "busy s..."
        },
        AT_response::busy_p => {
            proof {
                reveal_strlit("busy p...");
                ascii_literal_bytes("busy p...", response_bytes(response));
            }
            "busy p..."
        },
        AT_response::X_CONNECT => {
            proof {
                reveal_strlit(",CONNECT");
                ascii_literal_bytes(",CONNECT", response_bytes(response));
            }
            ",CONNECT"
        },
        AT_response::X_CLOSED => {
            proof {
                reveal_strlit(",CLOSED");
                ascii_literal_bytes(",CLOSED", response_bytes(response));
            }
            ",CLOSED"
        },
        AT_response::IPD => {
            proof {
                reveal_strlit("+IPD");
                ascii_literal_bytes("+IPD", response_bytes(response));
            }
            "+IPD"
        },
        AT_response::STA_CONNECTED => {
            proof {
                reveal_strlit("+STA_CONNECTED:");
                ascii_literal_bytes("+STA_CONNECTED:", response_bytes(response));
            }
            "+STA_CONNECTED:"
        },
        AT_response::DIST_STA_IP => {
            proof {
                reveal_strlit("+DIST_STA_IP:");
                ascii_literal_bytes("+DIST_STA_IP:", response_bytes(response));
            }
            "+DIST_STA_IP:"
        },
        AT_response::STA_DISCONNECTED => {
            proof {
                reveal_strlit("+STA_DISCONNECTED:");
                ascii_literal_bytes("+STA_DISCONNECTED:", response_bytes(response));
            }
            "+STA_DISCONNECTED:"
        },
    }
}

/// For an ASCII string whose characters agree pointwise with `bytes`, the
/// UTF-8 encoding equals `bytes`.
proof fn ascii_literal_bytes(s: &str, bytes: Seq<u8>)
    requires
        vstd::string::is_ascii(s),
        s@.len() == bytes.len(),
        forall|i: int| 0 <= i < bytes.len() ==> s@[i] as u8 == bytes[i],
    ensures
        s.spec_bytes() == bytes,
{
    vstd::utf8::is_ascii_chars_encode_utf8(s@);
    assert(s.spec_bytes() =~= bytes);
}

} // verus!
