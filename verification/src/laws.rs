//! Properties of the exchange engine that hold for all inputs, stated and
//! proved in one place.

use vstd::prelude::*;

use crate::classify::{prompt_bytes, spec_classify};
use crate::commands::{response_bytes, spec_str_to_response, AT_commands, AT_response};
use crate::encoder::{dec_bytes, expected_response, in_allow_list};
use crate::engine::{spec_react, DeviceState, EngineAction, ExchangeState};
use crate::framer::{feed_model, ipd_header_bytes, spec_step, FramerModel, FramerStepModel};

verus! {

/// A pattern that disagrees with the line at one index is no prefix of it.
proof fn lemma_not_prefix_at(p: Seq<u8>, line: Seq<u8>, i: int)
    requires
        0 <= i < p.len(),
        i >= line.len() || p[i] != line[i],
    ensures
        !p.is_prefix_of(line),
{
    if p.is_prefix_of(line) {
        assert(p[i] == line.subrange(0, p.len() as int)[i]);
    }
}

/// Every sequence is a prefix of itself, so a line's own table entry matches.
proof fn lemma_self_prefix(p: Seq<u8>)
    ensures
        p.is_prefix_of(p),
{
    assert(p =~= p.subrange(0, p.len() as int));
}

/// Classifying `OK` yields success, `ready` yields device-ready, `ERROR`
/// yields the generic error, and `WIFI DISCONNECT` yields link-down.
pub proof fn lemma_classify_terminal_strings()
    ensures
        spec_classify(response_bytes(AT_response::OK)) == AT_response::OK,
        spec_classify(response_bytes(AT_response::ready)) == AT_response::ready,
        spec_classify(response_bytes(AT_response::ERROR)) == AT_response::ERROR,
        spec_classify(response_bytes(AT_response::WIFI_DISCONNECT))
            == AT_response::WIFI_DISCONNECT,
{
    let ok = response_bytes(AT_response::OK);
    lemma_not_prefix_at(response_bytes(AT_response::IPD), ok, 0);
    assert(ok[0] != prompt_bytes()[0]);
    lemma_self_prefix(ok);

    let rdy = response_bytes(AT_response::ready);
    lemma_not_prefix_at(response_bytes(AT_response::IPD), rdy, 0);
    assert(rdy[0] != prompt_bytes()[0]);
    lemma_not_prefix_at(response_bytes(AT_response::OK), rdy, 0);
    lemma_not_prefix_at(response_bytes(AT_response::FAIL), rdy, 0);
    lemma_self_prefix(rdy);

    let err = response_bytes(AT_response::ERROR);
    lemma_not_prefix_at(response_bytes(AT_response::IPD), err, 0);
    assert(err[0] != prompt_bytes()[0]);
    lemma_not_prefix_at(response_bytes(AT_response::OK), err, 0);
    lemma_not_prefix_at(response_bytes(AT_response::FAIL), err, 0);
    lemma_not_prefix_at(response_bytes(AT_response::ready), err, 0);
    lemma_self_prefix(err);

    let down = response_bytes(AT_response::WIFI_DISCONNECT);
    lemma_not_prefix_at(response_bytes(AT_response::IPD), down, 0);
    assert(down[0] != prompt_bytes()[0]);
    lemma_not_prefix_at(response_bytes(AT_response::OK), down, 0);
    lemma_not_prefix_at(response_bytes(AT_response::FAIL), down, 0);
    lemma_not_prefix_at(response_bytes(AT_response::ready), down, 0);
    lemma_not_prefix_at(response_bytes(AT_response::ERROR), down, 0);
    lemma_not_prefix_at(response_bytes(AT_response::ALREADY_CONNECTED), down, 0);
    lemma_not_prefix_at(response_bytes(AT_response::WIFI_CONNECTED), down, 5);
    lemma_not_prefix_at(response_bytes(AT_response::WIFI_GOT_IP), down, 5);
    lemma_self_prefix(down);
}

/// The exact conversions invert each other: the canonical wire string of
/// every response kind converts back to exactly that kind.  (The sole
/// exception is `UNKNOWN_COMMAND`, whose string is the fallback marker, not
/// a reply the device sends.)
pub proof fn lemma_canonical_string_round_trip(kind: AT_response)
    requires
        kind != AT_response::UNKNOWN_COMMAND,
    ensures
        spec_str_to_response(response_bytes(kind)) == kind,
{
    // most canonical strings already differ in length; for the pairs of
    // equal length, one byte separates them
    assert(response_bytes(AT_response::FAIL)[0] != response_bytes(AT_response::IPD)[0]);
    assert(response_bytes(AT_response::ready)[0] != response_bytes(AT_response::ERROR)[0]);
    assert(response_bytes(AT_response::busy_s)[5] != response_bytes(AT_response::busy_p)[5]);
    assert(response_bytes(AT_response::WIFI_DISCONNECT)[0] != response_bytes(
        AT_response::STA_CONNECTED,
    )[0]);
}

/// Round-trip of intent: for every command in the allow-list, the canonical
/// string of the command's expected kind classifies back to exactly that
/// expected kind.
pub proof fn lemma_expected_round_trip<'a>(cmd: AT_commands<'a>)
    requires
        in_allow_list(cmd),
    ensures
        spec_classify(response_bytes(expected_response(cmd))) == expected_response(cmd),
{
    lemma_classify_terminal_strings();
    assert(expected_response(cmd) == AT_response::OK || expected_response(cmd)
        == AT_response::ready);
}

/// An exchange expecting success that reads one generic-error line and then
/// success retransmits exactly once — the error asks for an immediate
/// resend, the success asks for nothing further — finishes satisfied, and
/// the device state comes through both replies unchanged.
pub proof fn lemma_error_then_success_retransmits_once(dev: DeviceState)
    ensures
        ({
            let (st1, a1, d1) = spec_react(AT_response::OK, AT_response::ERROR, dev);
            let (st2, a2, d2) = spec_react(AT_response::OK, AT_response::OK, d1);
            &&& st1 == ExchangeState::Retrying
            &&& a1 == EngineAction::Retransmit
            &&& d1 == dev
            &&& st2 == ExchangeState::Satisfied
            &&& a2 == EngineAction::Finished
            &&& d2 == dev
        }),
{
}

/// `ALREADY CONNECTED` is an acceptable terminal substitute: an exchange
/// that reads it finishes satisfied at once, with no retransmission and no
/// change to the device state, whatever kind it expected.
pub proof fn lemma_already_connected_satisfies(expected: AT_response, dev: DeviceState)
    ensures
        spec_react(expected, AT_response::ALREADY_CONNECTED, dev) == (
            ExchangeState::Satisfied,
            EngineAction::Finished,
            dev,
        ),
{
}

/// A link-down notification clears both the link flag and the
/// address-acquired flag, keeps the exchange waiting, and resends nothing.
pub proof fn lemma_link_down_clears_flags(expected: AT_response, dev: DeviceState)
    requires
        expected != AT_response::WIFI_DISCONNECT,
    ensures
        ({
            let (st, a, d) = spec_react(expected, AT_response::WIFI_DISCONNECT, dev);
            &&& st == ExchangeState::AwaitingExpected
            &&& a == EngineAction::KeepWaiting
            &&& !d.link_established
            &&& !d.address_acquired
            &&& d.address == dev.address
        }),
{
}

/// A line matching no entry of the prefix table classifies to
/// `UNKNOWN_COMMAND`, and an unrecognized reply leaves the device state
/// untouched, whatever the exchange expected.
pub proof fn lemma_unmatched_line_is_unrecognized(
    line: Seq<u8>,
    expected: AT_response,
    dev: DeviceState,
)
    requires
        !response_bytes(AT_response::IPD).is_prefix_of(line),
        line != prompt_bytes(),
        !response_bytes(AT_response::OK).is_prefix_of(line),
        !response_bytes(AT_response::FAIL).is_prefix_of(line),
        !response_bytes(AT_response::ready).is_prefix_of(line),
        !response_bytes(AT_response::ERROR).is_prefix_of(line),
        !response_bytes(AT_response::ALREADY_CONNECTED).is_prefix_of(line),
        !response_bytes(AT_response::WIFI_CONNECTED).is_prefix_of(line),
        !response_bytes(AT_response::WIFI_GOT_IP).is_prefix_of(line),
        !response_bytes(AT_response::WIFI_DISCONNECT).is_prefix_of(line),
        !response_bytes(AT_response::busy_s).is_prefix_of(line),
        !response_bytes(AT_response::busy_p).is_prefix_of(line),
        !response_bytes(AT_response::X_CONNECT).is_prefix_of(line),
        !response_bytes(AT_response::X_CLOSED).is_prefix_of(line),
        !response_bytes(AT_response::STA_CONNECTED).is_prefix_of(line),
        !response_bytes(AT_response::DIST_STA_IP).is_prefix_of(line),
        !response_bytes(AT_response::STA_DISCONNECTED).is_prefix_of(line),
    ensures
        spec_classify(line) == AT_response::UNKNOWN_COMMAND,
        spec_react(expected, spec_classify(line), dev).2 == dev,
{
}

/// Feeding plain content bytes onto an accumulating line appends them all.
proof fn lemma_feed_appends(acc: Seq<u8>, bytes: Seq<u8>)
    requires
        acc.len() + bytes.len() < 64,
        (forall|i: int|
            0 <= i < bytes.len() ==> bytes[i] != 13 && #[trigger] bytes[i] != 10 && bytes[i]
                != 0),
        !ipd_header_bytes().is_prefix_of(acc + bytes),
    ensures
        feed_model(FramerModel::Text { line: acc, saw_cr: false }, bytes) == (FramerModel::Text {
            line: acc + bytes,
            saw_cr: false,
        }),
    decreases bytes.len(),
{
    if bytes.len() == 0 {
        assert(acc + bytes =~= acc);
    } else {
        let b = bytes[0];
        let grown = acc.push(b);
        assert(grown =~= (acc + bytes).subrange(0, acc.len() as int + 1));
        if grown == ipd_header_bytes() {
            assert(ipd_header_bytes().is_prefix_of(acc + bytes));
        }
        lemma_feed_appends(grown, bytes.drop_first());
        assert(grown + bytes.drop_first() =~= acc + bytes);
    }
}

/// A stream that carries one plain text line and then the terminator pair
/// frames to exactly that line, terminator excluded, and leaves the framer
/// back in its initial state.  Plain means: no terminator bytes and no zero
/// bytes inside the line, the line fits the buffer, and it does not open a
/// data-frame header.
pub proof fn lemma_text_line_round_trip(line: Seq<u8>)
    requires
        0 < line.len() < 64,
        (forall|i: int|
            0 <= i < line.len() ==> line[i] != 13 && #[trigger] line[i] != 10 && line[i]
                != 0),
        !ipd_header_bytes().is_prefix_of(line),
    ensures
        ({
            let fed = feed_model(FramerModel::initial(), line);
            let (with_cr, out_cr) = spec_step(fed, 13);
            let (done, out_lf) = spec_step(with_cr, 10);
            &&& out_cr == FramerStepModel::Pending
            &&& out_lf == FramerStepModel::Line(line)
            &&& done == FramerModel::initial()
        }),
{
    assert(Seq::<u8>::empty() + line =~= line);
    lemma_feed_appends(Seq::<u8>::empty(), line);
}

/// Digesting a concatenation is digesting its parts in turn.
proof fn lemma_feed_concat(m: FramerModel, a: Seq<u8>, b: Seq<u8>)
    ensures
        feed_model(m, a + b) == feed_model(feed_model(m, a), b),
    decreases a.len(),
{
    if a.len() == 0 {
        assert(a + b =~= b);
    } else {
        assert((a + b)[0] == a[0]);
        assert((a + b).drop_first() =~= a.drop_first() + b);
        lemma_feed_concat(spec_step(m, a[0]).0, a.drop_first(), b);
    }
}

/// Digesting a single byte is one step.
proof fn lemma_feed_one(m: FramerModel, b: u8)
    ensures
        feed_model(m, seq![b]) == spec_step(m, b).0,
{
    reveal_with_fuel(feed_model, 2);
    assert(seq![b].drop_first() =~= Seq::<u8>::empty());
}

/// Copying payload bytes accumulates them all while some are still owed.
proof fn lemma_feed_payload(len: nat, acc: Seq<u8>, bytes: Seq<u8>)
    requires
        acc.len() + bytes.len() < len <= 32,
    ensures
        feed_model(
            FramerModel::IpdPayload { len, remaining: (len - acc.len()) as nat, payload: acc },
            bytes,
        ) == (FramerModel::IpdPayload {
            len,
            remaining: (len - acc.len() - bytes.len()) as nat,
            payload: acc + bytes,
        }),
    decreases bytes.len(),
{
    if bytes.len() == 0 {
        assert(acc + bytes =~= acc);
    } else {
        lemma_feed_payload(len, acc.push(bytes[0]), bytes.drop_first());
        assert(acc.push(bytes[0]) + bytes.drop_first() =~= acc + bytes);
    }
}

/// A stream that carries one well-formed data frame — the `+IPD,` header,
/// the decimal rendering of the payload's length, the colon, and exactly
/// that many raw payload bytes — frames to a data frame holding exactly
/// that length and payload, and leaves the framer back in its initial
/// state.  The payload bytes themselves are arbitrary: nothing inside a
/// frame is scanned for line terminators.
pub proof fn lemma_data_frame_round_trip(payload: Seq<u8>)
    requires
        1 <= payload.len() <= 32,
    ensures
        ({
            let header = ipd_header_bytes() + dec_bytes(payload.len()) + seq![58u8];
            let before_last = feed_model(
                FramerModel::initial(),
                header + payload.take(payload.len() as int - 1),
            );
            let (done, out) = spec_step(before_last, payload.last());
            &&& out == (FramerStepModel::Frame { len: payload.len(), data: payload })
            &&& done == FramerModel::initial()
        }),
{
    let n = payload.len();
    let marker = response_bytes(AT_response::IPD);
    let header = ipd_header_bytes() + dec_bytes(n) + seq![58u8];

    // the four marker bytes accumulate as plain text ...
    assert(marker[0] == 43 && marker[1] == 73 && marker[2] == 80 && marker[3] == 68);
    assert(Seq::<u8>::empty() + marker =~= marker);
    lemma_not_prefix_at(ipd_header_bytes(), marker, 4);
    lemma_feed_appends(Seq::<u8>::empty(), marker);
    assert(feed_model(FramerModel::initial(), marker) == (FramerModel::Text {
        line: marker,
        saw_cr: false,
    }));

    // ... and the comma completes the frame header, opening the length field
    assert(marker.push(',' as u8) == ipd_header_bytes());
    let opened = FramerModel::IpdLength { line: ipd_header_bytes(), len: 0 };
    assert(feed_model(FramerModel::initial(), ipd_header_bytes()) == opened) by {
        assert(ipd_header_bytes() =~= marker + seq![',' as u8]);
        lemma_feed_concat(FramerModel::initial(), marker, seq![',' as u8]);
        lemma_feed_one(FramerModel::Text { line: marker, saw_cr: false }, ',' as u8);
    }

    // the decimal digits accumulate into the declared length: one digit
    // below ten, two digits up to the payload capacity
    let parsed = FramerModel::IpdLength { line: ipd_header_bytes() + dec_bytes(n), len: n };
    assert(feed_model(opened, dec_bytes(n)) == parsed) by {
        if n < 10 {
            let d = (48 + n) as u8;
            assert(dec_bytes(n) == seq![d]);
            lemma_feed_one(opened, d);
            assert(ipd_header_bytes() + dec_bytes(n) =~= ipd_header_bytes().push(d));
        } else {
            let d1 = (48 + n / 10) as u8;
            let d2 = (48 + n % 10) as u8;
            assert(dec_bytes(n / 10) == seq![d1]);
            assert(dec_bytes(n) == dec_bytes(n / 10).push(d2));
            assert(dec_bytes(n) =~= seq![d1] + seq![d2]);
            lemma_feed_concat(opened, seq![d1], seq![d2]);
            lemma_feed_one(opened, d1);
            let mid = FramerModel::IpdLength {
                line: ipd_header_bytes().push(d1),
                len: n / 10,
            };
            assert(spec_step(opened, d1).0 == mid);
            lemma_feed_one(mid, d2);
            assert((n / 10) * 10 + (n % 10) == n) by (nonlinear_arith);
            assert(ipd_header_bytes() + dec_bytes(n) =~= ipd_header_bytes().push(d1).push(d2));
        }
    }

    // the colon closes the length field and starts the payload copy
    let copying = FramerModel::IpdPayload { len: n, remaining: n, payload: Seq::<u8>::empty() };
    assert(spec_step(parsed, 58).0 == copying);

    // all but the last payload byte accumulate; the last one emits the frame
    let fed = payload.take(n as int - 1);
    assert(feed_model(FramerModel::initial(), header + fed) == (FramerModel::IpdPayload {
        len: n,
        remaining: 1,
        payload: fed,
    })) by {
        lemma_feed_concat(FramerModel::initial(), header, fed);
        assert(header =~= (ipd_header_bytes() + dec_bytes(n)) + seq![58u8]);
        lemma_feed_concat(FramerModel::initial(), ipd_header_bytes() + dec_bytes(n), seq![58u8]);
        lemma_feed_concat(FramerModel::initial(), ipd_header_bytes(), dec_bytes(n));
        lemma_feed_one(parsed, 58);
        assert(Seq::<u8>::empty() + fed =~= fed);
        lemma_feed_payload(n, Seq::<u8>::empty(), fed);
    }
    assert(fed.push(payload.last()) =~= payload);
}

} // verus!
