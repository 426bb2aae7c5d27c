//! The response classifier: maps one framed reply line to exactly one
//! response kind.
//!
//! The unsolicited-data check comes first: a line that begins with the
//! incoming-data marker is classified as such before anything else.  Every
//! other pattern of the table is matched as a literal byte prefix — the line
//! need only start with it — except the send prompt, which must be the whole
//! line: a `>` followed by one space.  Matching is case-sensitive, and a line
//! matching no pattern is `UNKNOWN_COMMAND`.

use vstd::prelude::*;

use crate::commands::{bytes_eq, response_bytes, response_to_bytes, starts_with, AT_response};

verus! {

/// The send prompt as it appears on the wire: `>` followed by one space.
pub open spec fn prompt_bytes() -> Seq<u8> {
    seq!['>' as u8, ' ' as u8]
}

/// What [`classify_line`] returns: the first entry of the prefix table that
/// matches the line, or `UNKNOWN_COMMAND` when none does.
pub open spec fn spec_classify(line: Seq<u8>) -> AT_response {
    if response_bytes(AT_response::IPD).is_prefix_of(line) {
        AT_response::IPD
    } else if line == prompt_bytes() {
        AT_response::ready_to_send
    } else if response_bytes(AT_response::OK).is_prefix_of(line) {
        AT_response::OK
    } else if response_bytes(AT_response::FAIL).is_prefix_of(line) {
        AT_response::FAIL
    } else if response_bytes(AT_response::ready).is_prefix_of(line) {
        AT_response::ready
    } else if response_bytes(AT_response::ERROR).is_prefix_of(line) {
        AT_response::ERROR
    } else if response_bytes(AT_response::ALREADY_CONNECTED).is_prefix_of(line) {
        AT_response::ALREADY_CONNECTED
    } else if response_bytes(AT_response::WIFI_CONNECTED).is_prefix_of(line) {
        AT_response::WIFI_CONNECTED
    } else if response_bytes(AT_response::WIFI_GOT_IP).is_prefix_of(line) {
        AT_response::WIFI_GOT_IP
    } else if response_bytes(AT_response::WIFI_DISCONNECT).is_prefix_of(line) {
        AT_response::WIFI_DISCONNECT
    } else if response_bytes(AT_response::busy_s).is_prefix_of(line) {
        AT_response::busy_s
    } else if response_bytes(AT_response::busy_p).is_prefix_of(line) {
        AT_response::busy_p
    } else if response_bytes(AT_response::X_CONNECT).is_prefix_of(line) {
        AT_response::X_CONNECT
    } else if response_bytes(AT_response::X_CLOSED).is_prefix_of(line) {
        AT_response::X_CLOSED
    } else if response_bytes(AT_response::STA_CONNECTED).is_prefix_of(line) {
        AT_response::STA_CONNECTED
    } else if response_bytes(AT_response::DIST_STA_IP).is_prefix_of(line) {
        AT_response::DIST_STA_IP
    } else if response_bytes(AT_response::STA_DISCONNECTED).is_prefix_of(line) {
        AT_response::STA_DISCONNECTED
    } else {
        AT_response::UNKNOWN_COMMAND
    }
}

/// Does the line start with the canonical wire string of `kind`?
fn has_prefix(line: &[u8], kind: AT_response) -> (r: bool)
    ensures
        r == response_bytes(kind).is_prefix_of(line@),
{
    let pat = response_to_bytes(kind);
    starts_with(line, pat.as_slice())
}

/// Classifies one framed reply line.  Pure: reads the line, touches nothing
/// else.
pub fn classify_line(line: &[u8]) -> (r: AT_response)
    ensures
        r == spec_classify(line@),
{
    if has_prefix(line, AT_response::IPD) {
        return AT_response::IPD;
    }
    let prompt: Vec<u8> = vec!['>' as u8, ' ' as u8];
    proof {
        assert(prompt@ =~= prompt_bytes());
    }
    if bytes_eq(line, prompt.as_slice()) {
        return AT_response::ready_to_send;
    }
    if has_prefix(line, AT_response::OK) {
        return AT_response::OK;
    }
    if has_prefix(line, AT_response::FAIL) {
        return AT_response::FAIL;
    }
    if has_prefix(line, AT_response::ready) {
        return AT_response::ready;
    }
    if has_prefix(line, AT_response::ERROR) {
        return AT_response::ERROR;
    }
    if has_prefix(line, AT_response::ALREADY_CONNECTED) {
        return AT_response::ALREADY_CONNECTED;
    }
    if has_prefix(line, AT_response::WIFI_CONNECTED) {
        return AT_response::WIFI_CONNECTED;
    }
    if has_prefix(line, AT_response::WIFI_GOT_IP) {
        return AT_response::WIFI_GOT_IP;
    }
    if has_prefix(line, AT_response::WIFI_DISCONNECT) {
        return AT_response::WIFI_DISCONNECT;
    }
    if has_prefix(line, AT_response::busy_s) {
        return AT_response::busy_s;
    }
    if has_prefix(line, AT_response::busy_p) {
        return AT_response::busy_p;
    }
    if has_prefix(line, AT_response::X_CONNECT) {
        return AT_response::X_CONNECT;
    }
    if has_prefix(line, AT_response::X_CLOSED) {
        return AT_response::X_CLOSED;
    }
    if has_prefix(line, AT_response::STA_CONNECTED) {
        return AT_response::STA_CONNECTED;
    }
    if has_prefix(line, AT_response::DIST_STA_IP) {
        return AT_response::DIST_STA_IP;
    }
    if has_prefix(line, AT_response::STA_DISCONNECTED) {
        return AT_response::STA_DISCONNECTED;
    }
    AT_response::UNKNOWN_COMMAND
}

} // verus!
