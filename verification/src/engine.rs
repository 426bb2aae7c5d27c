//! The exchange engine: drives one command exchange — send, await the reply
//! stream, retry — and records link notifications in the device state.
//!
//! The engine itself performs no transport work.  The caller writes the wire
//! bytes, reads and classifies reply lines, and hands each classified kind to
//! [`Exchange::on_response`]; the returned [`EngineAction`] says what to do
//! next.  An exchange ends only in the `Satisfied` state: a reply equal to
//! the expected kind, or the acceptable substitute `ALREADY CONNECTED`.

use vstd::prelude::*;

use crate::commands::{AT_commands, AT_response};
use crate::encoder::{
    appends_terminator, encode, expected_response, in_allow_list, is_supported, wire_bytes,
};

verus! {

/// Milliseconds to pause before retransmitting after a reply that neither
/// ended the exchange nor asked for an immediate resend.
pub const RETRY_DELAY_MS: u16 = 200;

/// The link state of the device: written only by the exchange engine, as a
/// side effect of classified link notifications.
#[derive(Clone, Copy, PartialEq, Debug)]
pub struct DeviceState {
    /// Whether the link to the access point is up.
    pub link_established: bool,
    /// Whether the device has acquired an address.
    pub address_acquired: bool,
    /// The assigned address, when one is known.
    pub address: Option<(u8, u8, u8, u8)>,
}

impl DeviceState {
    /// The state a device starts in: no link, no address.
    pub open spec fn initial() -> DeviceState {
        DeviceState { link_established: false, address_acquired: false, address: None }
    }

    /// A fresh device state.
    pub fn new() -> (r: DeviceState)
        ensures
            r == DeviceState::initial(),
    {
        DeviceState { link_established: false, address_acquired: false, address: None }
    }
}

/// The states of one exchange.
#[derive(Clone, Copy, PartialEq, Eq, Structural, Debug)]
pub enum ExchangeState {
    /// The wire bytes have not been written yet.
    Sending,
    /// The bytes are out; replies are being read and classified.
    AwaitingExpected,
    /// A terminal reply arrived; the exchange is over.
    Satisfied,
    /// The reply asked for a resend; the bytes must go out again.
    Retrying,
}

/// What the caller must do after handing a reply to the engine.
#[derive(Clone, Copy, PartialEq, Eq, Structural, Debug)]
pub enum EngineAction {
    /// Read and classify the next line; nothing is resent.
    KeepWaiting,
    /// Rewrite the command bytes immediately, then keep reading.
    Retransmit,
    /// Pause [`RETRY_DELAY_MS`], rewrite the command bytes, then keep
    /// reading.
    DelayThenRetransmit,
    /// The exchange is satisfied; stop.
    Finished,
}

/// How an exchange awaiting `expected` reacts to one classified reply:
/// the state it moves to, the action it asks of the caller, and the device
/// state after the reply.
///
/// The expected kind — or `ALREADY CONNECTED`, an acceptable substitute for
/// any expected kind — satisfies the exchange.  The three link notifications
/// update the device state and leave the wait running.  A generic error asks
/// for an immediate resend; anything else asks for a paced one.
pub open spec fn spec_react(expected: AT_response, resp: AT_response, dev: DeviceState) -> (
    ExchangeState,
    EngineAction,
    DeviceState,
) {
    if resp == expected || resp == AT_response::ALREADY_CONNECTED {
        (ExchangeState::Satisfied, EngineAction::Finished, dev)
    } else if resp == AT_response::WIFI_CONNECTED {
        (
            ExchangeState::AwaitingExpected,
            EngineAction::KeepWaiting,
            DeviceState { link_established: true, ..dev },
        )
    } else if resp == AT_response::WIFI_DISCONNECT {
        (
            ExchangeState::AwaitingExpected,
            EngineAction::KeepWaiting,
            DeviceState { link_established: false, address_acquired: false, ..dev },
        )
    } else if resp == AT_response::WIFI_GOT_IP {
        (
            ExchangeState::AwaitingExpected,
            EngineAction::KeepWaiting,
            DeviceState { address_acquired: true, ..dev },
        )
    } else if resp == AT_response::ERROR {
        (ExchangeState::Retrying, EngineAction::Retransmit, dev)
    } else {
        (ExchangeState::Retrying, EngineAction::DelayThenRetransmit, dev)
    }
}

/// The command handed to [`Exchange::begin`] is not in the allow-list; no
/// wire bytes were produced and nothing must be sent.
#[derive(Clone, Copy, PartialEq, Eq, Structural, Debug)]
pub struct UnsupportedCommand;

/// One command exchange.
pub struct Exchange {
    /// The response kind that ends this exchange.
    pub expected: AT_response,
    /// Where the exchange stands.
    pub state: ExchangeState,
}

impl Exchange {
    /// Starts an exchange for a command: encodes it and returns the exchange
    /// together with the wire bytes and the terminator flag.  A command
    /// outside the allow-list is refused here, before any transport work.
    pub fn begin<'a>(cmd: AT_commands<'a>) -> (r: Result<
        (Exchange, Vec<u8>, bool),
        UnsupportedCommand,
    >)
        ensures
            r is Ok <==> in_allow_list(cmd),
            r matches Ok(t) ==> {
                &&& t.0.expected == expected_response(cmd)
                &&& t.0.state == ExchangeState::Sending
                &&& t.1@ == wire_bytes(cmd)
                &&& t.2 == appends_terminator(cmd)
            },
    {
        if !is_supported(cmd) {
            return Err(UnsupportedCommand);
        }
        let (wire, expected, terminate) = encode(cmd);
        Ok((Exchange { expected, state: ExchangeState::Sending }, wire, terminate))
    }

    /// The wire bytes went out; the exchange now awaits its reply.
    pub fn mark_sent(&mut self)
        requires
            old(self).state == ExchangeState::Sending,
        ensures
            final(self).state == ExchangeState::AwaitingExpected,
            final(self).expected == old(self).expected,
    {
        self.state = ExchangeState::AwaitingExpected;
    }

    /// Reacts to one classified reply line, exactly as [`spec_react`] says.
    pub fn on_response(&mut self, resp: AT_response, dev: &mut DeviceState) -> (a: EngineAction)
        requires
            old(self).state == ExchangeState::AwaitingExpected,
        ensures
            ({
                let (st, act, d) = spec_react(old(self).expected, resp, *old(dev));
                &&& final(self).state == st
                &&& final(self).expected == old(self).expected
                &&& a == act
                &&& *final(dev) == d
            }),
    {
        if resp == self.expected || resp == AT_response::ALREADY_CONNECTED {
            self.state = ExchangeState::Satisfied;
            EngineAction::Finished
        } else if resp == AT_response::WIFI_CONNECTED {
            dev.link_established = true;
            EngineAction::KeepWaiting
        } else if resp == AT_response::WIFI_DISCONNECT {
            dev.link_established = false;
            dev.address_acquired = false;
            EngineAction::KeepWaiting
        } else if resp == AT_response::WIFI_GOT_IP {
            dev.address_acquired = true;
            EngineAction::KeepWaiting
        } else if resp == AT_response::ERROR {
            self.state = ExchangeState::Retrying;
            EngineAction::Retransmit
        } else {
            self.state = ExchangeState::Retrying;
            EngineAction::DelayThenRetransmit
        }
    }

    /// A transport read failed.  The exchange keeps waiting: a read failure
    /// neither ends the wait nor changes any state.
    pub fn on_read_failure(&self) -> (a: EngineAction)
        ensures
            a == EngineAction::KeepWaiting,
    {
        EngineAction::KeepWaiting
    }

    /// The command bytes went out again after a retry; await the reply anew.
    pub fn mark_retransmitted(&mut self)
        requires
            old(self).state == ExchangeState::Retrying,
        ensures
            final(self).state == ExchangeState::AwaitingExpected,
            final(self).expected == old(self).expected,
    {
        self.state = ExchangeState::AwaitingExpected;
    }

    /// Is the exchange waiting for a reply?
    pub fn is_awaiting(&self) -> (r: bool)
        ensures
            r == (self.state == ExchangeState::AwaitingExpected),
    {
        match self.state {
            ExchangeState::AwaitingExpected => true,
            _ => false,
        }
    }

    /// Is the exchange over?
    pub fn is_satisfied(&self) -> (r: bool)
        ensures
            r == (self.state == ExchangeState::Satisfied),
    {
        match self.state {
            ExchangeState::Satisfied => true,
            _ => false,
        }
    }
}

} // verus!
