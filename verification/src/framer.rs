//! The line framer and unsolicited-data extractor.
//!
//! The framer consumes the reply stream one byte at a time.  In text mode it
//! accumulates bytes into a fixed-capacity line buffer until it sees the
//! carriage-return/line-feed pair, and the accumulated bytes — terminator
//! excluded — are one wire line.  A carriage return that is not followed by
//! a line feed is not a boundary: the byte read after it is preserved into
//! the line.  A full buffer ends the line early, and an empty line or a
//! leading run of zero bytes is skipped.
//!
//! The same stream carries raw inbound network data, multiplexed as frames
//! of the form `+IPD,<decimal length>:<bytes>`.  Once the accumulated line
//! reads `+IPD,` the framer parses the decimal length field up to the colon
//! and then copies exactly that many following bytes — raw, exempt from
//! line-termination scanning — into the payload buffer.  A header that is
//! not well formed, or whose declared length exceeds the payload capacity,
//! is not a frame: the framer falls back to plain text accumulation and the
//! bytes read so far stay in the line.

use vstd::prelude::*;

use crate::commands::{bytes_eq, response_bytes, response_to_bytes, AT_response};

verus! {

/// Capacity of the reply-line buffer.
pub const LINE_CAPACITY: usize = 64;

/// Capacity of the extracted-payload buffer.
pub const PAYLOAD_CAPACITY: usize = 32;

/// The header that announces an unsolicited data frame: the
/// incoming-data marker followed by the comma that precedes the length.
pub open spec fn ipd_header_bytes() -> Seq<u8> {
    response_bytes(AT_response::IPD).push(',' as u8)
}

// ---------------------------------------------------------------------
// Trusted boundary: the fixed-capacity buffers are heapless vectors.
// ---------------------------------------------------------------------

#[verifier::external_type_specification]
#[verifier::external_body]
#[verifier::reject_recursive_types(T)]
pub struct ExHeaplessVec<T, const N: usize>(heapless::Vec<T, N>);

/// The bytes the reply-line buffer holds, oldest first.
pub uninterp spec fn line_buf_bytes(v: heapless::Vec<u8, 64>) -> Seq<u8>;

/// The bytes the payload buffer holds, oldest first.
pub uninterp spec fn payload_buf_bytes(v: heapless::Vec<u8, 32>) -> Seq<u8>;

/// Relies on `heapless::Vec::new`: a fresh vector is empty.
#[verifier::external_body]
fn line_buf_new() -> (v: heapless::Vec<u8, 64>)
    ensures
        line_buf_bytes(v) == Seq::<u8>::empty(),
{
    heapless::Vec::new()
}

/// Relies on `heapless::Vec::push`: appends the byte while the vector is
/// below its capacity, and hands the byte back once it is full.
#[verifier::external_body]
fn line_buf_push(v: &mut heapless::Vec<u8, 64>, b: u8) -> (r: Result<(), u8>)
    ensures
        r is Ok <==> line_buf_bytes(*old(v)).len() < 64,
        r is Ok ==> line_buf_bytes(*final(v)) == line_buf_bytes(*old(v)).push(b),
        r is Err ==> line_buf_bytes(*final(v)) == line_buf_bytes(*old(v)),
{
    v.push(b)
}

/// Relies on `heapless::Vec::as_slice`: the vector's contents as a slice.
#[verifier::external_body]
fn line_buf_as_slice(v: &heapless::Vec<u8, 64>) -> (s: &[u8])
    ensures
        s@ == line_buf_bytes(*v),
{
    v.as_slice()
}

/// Relies on `heapless::Vec::clear`: removes every element.
#[verifier::external_body]
fn line_buf_clear(v: &mut heapless::Vec<u8, 64>)
    ensures
        line_buf_bytes(*final(v)) == Seq::<u8>::empty(),
{
    v.clear()
}

/// Relies on `heapless::Vec::new`: a fresh vector is empty.
#[verifier::external_body]
fn payload_buf_new() -> (v: heapless::Vec<u8, 32>)
    ensures
        payload_buf_bytes(v) == Seq::<u8>::empty(),
{
    heapless::Vec::new()
}

/// Relies on `heapless::Vec::push`: appends the byte while the vector is
/// below its capacity, and hands the byte back once it is full.
#[verifier::external_body]
fn payload_buf_push(v: &mut heapless::Vec<u8, 32>, b: u8) -> (r: Result<(), u8>)
    ensures
        r is Ok <==> payload_buf_bytes(*old(v)).len() < 32,
        r is Ok ==> payload_buf_bytes(*final(v)) == payload_buf_bytes(*old(v)).push(b),
        r is Err ==> payload_buf_bytes(*final(v)) == payload_buf_bytes(*old(v)),
{
    v.push(b)
}

/// Relies on `heapless::Vec::as_slice`: the vector's contents as a slice.
#[verifier::external_body]
fn payload_buf_as_slice(v: &heapless::Vec<u8, 32>) -> (s: &[u8])
    ensures
        s@ == payload_buf_bytes(*v),
{
    v.as_slice()
}

/// Relies on `heapless::Vec::clear`: removes every element.
#[verifier::external_body]
fn payload_buf_clear(v: &mut heapless::Vec<u8, 32>)
    ensures
        payload_buf_bytes(*final(v)) == Seq::<u8>::empty(),
{
    v.clear()
}

// ---------------------------------------------------------------------
// The framer proper: a verified state machine over those buffers.
// ---------------------------------------------------------------------

/// The abstract state of the framer.
pub enum FramerModel {
    /// Accumulating a text line.  `saw_cr` says a carriage return is
    /// pending: the next byte decides whether the line ends.
    Text { line: Seq<u8>, saw_cr: bool },
    /// The line so far reads `+IPD,` plus the digits parsed into `len`;
    /// the length field is still open.
    IpdLength { line: Seq<u8>, len: nat },
    /// Copying the declared payload of a data frame: `remaining` of the
    /// declared `len` bytes are still owed.
    IpdPayload { len: nat, remaining: nat, payload: Seq<u8> },
}

impl FramerModel {
    /// The state a fresh framer starts in.
    pub open spec fn initial() -> FramerModel {
        FramerModel::Text { line: Seq::<u8>::empty(), saw_cr: false }
    }

    /// The accumulated line, in the states that hold one.
    pub open spec fn line(self) -> Seq<u8> {
        match self {
            FramerModel::Text { line, .. } => line,
            FramerModel::IpdLength { line, .. } => line,
            FramerModel::IpdPayload { .. } => Seq::<u8>::empty(),
        }
    }

    /// The invariant every reachable framer state satisfies.
    pub open spec fn wf(self) -> bool {
        match self {
            FramerModel::Text { line, saw_cr } => line.len() < 64,
            FramerModel::IpdLength { line, len } => line.len() < 64 && 5 <= line.len() && len
                <= 32,
            FramerModel::IpdPayload { len, remaining, payload } => len <= 32 && 1 <= remaining
                && payload.len() + remaining == len,
        }
    }
}

/// What one byte produced.
pub enum FramerStep {
    /// More bytes are needed.
    Pending,
    /// A complete wire line, terminator excluded.
    Line(Vec<u8>),
    /// A complete unsolicited data frame: the declared length and exactly
    /// that many raw payload bytes.
    Frame { len: u8, data: Vec<u8> },
}

/// The abstract value of a [`FramerStep`].
pub enum FramerStepModel {
    Pending,
    Line(Seq<u8>),
    Frame { len: nat, data: Seq<u8> },
}

impl View for FramerStep {
    type V = FramerStepModel;

    open spec fn view(&self) -> FramerStepModel {
        match self {
            FramerStep::Pending => FramerStepModel::Pending,
            FramerStep::Line(line) => FramerStepModel::Line(line@),
            FramerStep::Frame { len, data } => FramerStepModel::Frame {
                len: *len as nat,
                data: data@,
            },
        }
    }
}

/// Appends one content byte to the accumulating line: completes the line
/// when the buffer fills, and opens the length field of a data frame when
/// the line so far is exactly the frame header.
pub open spec fn spec_text_append(line: Seq<u8>, b: u8) -> (FramerModel, FramerStepModel) {
    let grown = line.push(b);
    if grown == ipd_header_bytes() {
        (FramerModel::IpdLength { line: grown, len: 0 }, FramerStepModel::Pending)
    } else if grown.len() == 64 {
        (FramerModel::initial(), FramerStepModel::Line(grown))
    } else {
        (FramerModel::Text { line: grown, saw_cr: false }, FramerStepModel::Pending)
    }
}

/// How the framer digests one byte: the state it moves to and what it
/// hands the caller.
pub open spec fn spec_step(m: FramerModel, b: u8) -> (FramerModel, FramerStepModel) {
    match m {
        FramerModel::Text { line, saw_cr } => {
            if saw_cr {
                if b == 10 {
                    if line.len() == 0 {
                        // an empty line is skipped, not delivered
                        (FramerModel::initial(), FramerStepModel::Pending)
                    } else {
                        (FramerModel::initial(), FramerStepModel::Line(line))
                    }
                } else {
                    // a lone carriage return is not a boundary; the byte
                    // after it is preserved
                    spec_text_append(line, b)
                }
            } else if b == 13 {
                (FramerModel::Text { line, saw_cr: true }, FramerStepModel::Pending)
            } else if b == 0 && line.len() == 0 {
                // zero bytes before the first content byte are padding
                (m, FramerStepModel::Pending)
            } else {
                spec_text_append(line, b)
            }
        },
        FramerModel::IpdLength { line, len } => {
            if b == 58 && line.len() > 5 {
                // the colon closes a non-empty length field
                if len == 0 {
                    (
                        FramerModel::initial(),
                        FramerStepModel::Frame { len: 0, data: Seq::<u8>::empty() },
                    )
                } else {
                    (
                        FramerModel::IpdPayload {
                            len,
                            remaining: len,
                            payload: Seq::<u8>::empty(),
                        },
                        FramerStepModel::Pending,
                    )
                }
            } else if 48 <= b && b <= 57 {
                let grown_len = (len * 10 + (b - 48)) as nat;
                if grown_len <= 32 && line.len() + 1 < 64 {
                    (
                        FramerModel::IpdLength { line: line.push(b), len: grown_len },
                        FramerStepModel::Pending,
                    )
                } else {
                    // oversized length: not a deliverable frame; back to text
                    spec_text_append(line, b)
                }
            } else if b == 13 {
                // a terminator instead of a length field: back to text
                (FramerModel::Text { line, saw_cr: true }, FramerStepModel::Pending)
            } else {
                // not a digit, not a colon: back to text
                spec_text_append(line, b)
            }
        },
        FramerModel::IpdPayload { len, remaining, payload } => {
            if remaining == 1 {
                (
                    FramerModel::initial(),
                    FramerStepModel::Frame { len, data: payload.push(b) },
                )
            } else {
                (
                    FramerModel::IpdPayload {
                        len,
                        remaining: (remaining - 1) as nat,
                        payload: payload.push(b),
                    },
                    FramerStepModel::Pending,
                )
            }
        },
    }
}

/// The framer state after digesting a whole byte sequence, one
/// [`spec_step`] at a time.
pub open spec fn feed_model(m: FramerModel, bytes: Seq<u8>) -> FramerModel
    decreases bytes.len(),
{
    if bytes.len() == 0 {
        m
    } else {
        feed_model(spec_step(m, bytes[0]).0, bytes.drop_first())
    }
}

#[derive(Clone, Copy)]
enum Mode {
    Text,
    IpdLength,
    IpdPayload,
}

/// The framer: feed it the reply stream byte by byte with
/// [`Framer::push_byte`]; it hands back each complete wire line and each
/// complete data frame.
pub struct Framer {
    mode: Mode,
    saw_cr: bool,
    line: heapless::Vec<u8, 64>,
    frame_len: u8,
    remaining: u8,
    payload: heapless::Vec<u8, 32>,
}

impl View for Framer {
    type V = FramerModel;

    closed spec fn view(&self) -> FramerModel {
        match self.mode {
            Mode::Text => FramerModel::Text {
                line: line_buf_bytes(self.line),
                saw_cr: self.saw_cr,
            },
            Mode::IpdLength => FramerModel::IpdLength {
                line: line_buf_bytes(self.line),
                len: self.frame_len as nat,
            },
            Mode::IpdPayload => FramerModel::IpdPayload {
                len: self.frame_len as nat,
                remaining: self.remaining as nat,
                payload: payload_buf_bytes(self.payload),
            },
        }
    }
}

impl Framer {
    /// A fresh framer, in text mode with an empty line.
    pub fn new() -> (r: Framer)
        ensures
            r@ == FramerModel::initial(),
            r@.wf(),
    {
        Framer {
            mode: Mode::Text,
            saw_cr: false,
            line: line_buf_new(),
            frame_len: 0,
            remaining: 0,
            payload: payload_buf_new(),
        }
    }

    /// Appends a content byte to the line buffer, exactly as
    /// [`spec_text_append`] says.
    fn text_append(&mut self, b: u8) -> (r: FramerStep)
        requires
            old(self)@ matches FramerModel::Text { line, .. } && line.len() < 64,
        ensures
            final(self)@.wf(),
            ({
                let (m2, out) = spec_text_append(old(self)@.line(), b);
                final(self)@ == m2 && r@ == out
            }),
    {
        let _pushed = line_buf_push(&mut self.line, b);
        let mut header = response_to_bytes(AT_response::IPD);
        header.push(',' as u8);
        proof {
            assert(header@ =~= ipd_header_bytes());
        }
        let s = line_buf_as_slice(&self.line);
        let n = s.len();
        if bytes_eq(s, header.as_slice()) {
            self.mode = Mode::IpdLength;
            self.frame_len = 0;
            self.saw_cr = false;
            return FramerStep::Pending;
        }
        if n == 64 {
            let full = vstd::slice::slice_to_vec(line_buf_as_slice(&self.line));
            line_buf_clear(&mut self.line);
            self.saw_cr = false;
            return FramerStep::Line(full);
        }
        self.saw_cr = false;
        FramerStep::Pending
    }

    /// Digests one byte of the reply stream, exactly as [`spec_step`] says.
    pub fn push_byte(&mut self, b: u8) -> (r: FramerStep)
        requires
            old(self)@.wf(),
        ensures
            final(self)@.wf(),
            ({
                let (m2, out) = spec_step(old(self)@, b);
                final(self)@ == m2 && r@ == out
            }),
    {
        match self.mode {
            Mode::Text => {
                if self.saw_cr {
                    if b == 10 {
                        self.saw_cr = false;
                        let s = line_buf_as_slice(&self.line);
                        if s.len() == 0 {
                            proof {
                                assert(line_buf_bytes(self.line) =~= Seq::<u8>::empty());
                            }
                            return FramerStep::Pending;
                        }
                        let full = vstd::slice::slice_to_vec(line_buf_as_slice(&self.line));
                        line_buf_clear(&mut self.line);
                        return FramerStep::Line(full);
                    }
                    self.text_append(b)
                } else if b == 13 {
                    self.saw_cr = true;
                    FramerStep::Pending
                } else if b == 0 && line_buf_as_slice(&self.line).len() == 0 {
                    FramerStep::Pending
                } else {
                    self.text_append(b)
                }
            },
            Mode::IpdLength => {
                let n = line_buf_as_slice(&self.line).len();
                if b == 58 && n > 5 {
                    if self.frame_len == 0 {
                        self.mode = Mode::Text;
                        self.saw_cr = false;
                        line_buf_clear(&mut self.line);
                        let data: Vec<u8> = Vec::new();
                        return FramerStep::Frame { len: 0, data };
                    }
                    self.mode = Mode::IpdPayload;
                    self.remaining = self.frame_len;
                    payload_buf_clear(&mut self.payload);
                    FramerStep::Pending
                } else if 48 <= b && b <= 57 {
                    let grown_len: u16 = self.frame_len as u16 * 10 + (b - 48) as u16;
                    if grown_len <= 32 && n + 1 < 64 {
                        let _pushed = line_buf_push(&mut self.line, b);
                        self.frame_len = grown_len as u8;
                        FramerStep::Pending
                    } else {
                        self.mode = Mode::Text;
                        self.text_append(b)
                    }
                } else if b == 13 {
                    self.mode = Mode::Text;
                    self.saw_cr = true;
                    FramerStep::Pending
                } else {
                    self.mode = Mode::Text;
                    self.text_append(b)
                }
            },
            Mode::IpdPayload => {
                let _pushed = payload_buf_push(&mut self.payload, b);
                if self.remaining == 1 {
                    let data = vstd::slice::slice_to_vec(payload_buf_as_slice(&self.payload));
                    let len = self.frame_len;
                    self.mode = Mode::Text;
                    self.saw_cr = false;
                    line_buf_clear(&mut self.line);
                    payload_buf_clear(&mut self.payload);
                    self.remaining = 0;
                    return FramerStep::Frame { len, data };
                }
                self.remaining = self.remaining - 1;
                FramerStep::Pending
            },
        }
    }
}

} // verus!
