//! The framer: how a payload is wrapped into the bytes that travel, and how
//! a frame is found again in the bytes that arrive.
//!
//! A request starts with `C9 36 B8 47` and the command. A simple request
//! goes on with its payload. An extended request goes on with the inner
//! command, the length of the payload as a variable-width integer, the
//! payload, and the CRC16 of everything before it, high byte first.
//!
//! A reply starts with `AA 55`, the command and a variable-width length. A
//! simple reply goes on with its payload. An extended reply goes on with as
//! many bytes as the length says (the inner command, the acknowledgement
//! and the payload) and then the CRC16 of everything before it.

use vstd::prelude::*;
use vstd::slice::slice_subrange;
use crate::crc::{crc16, spec_crc16};
use crate::errors::EncodeError;
use crate::packets::EXTENDED_COMMAND;
use crate::varint::{self, VarU16, VAR_U16_MAX};
use crate::wire::{append, copy_range};

verus! {

/// The most bytes that may go by before a reply's preamble.
pub const MAX_GARBAGE: usize = 4096;

/// The four bytes every request starts with.
pub open spec fn host_preamble() -> Seq<u8> {
    seq![0xC9u8, 0x36u8, 0xB8u8, 0x47u8]
}

/// The two bytes every reply starts with.
pub open spec fn device_preamble() -> Seq<u8> {
    seq![0xAAu8, 0x55u8]
}

/// The two bytes of `v`, high byte first.
pub open spec fn u16_be(v: u16) -> Seq<u8> {
    seq![(v / 0x100) as u8, (v % 0x100) as u8]
}

/// `s` and the CRC16 of `s` behind it.
pub open spec fn with_crc(s: Seq<u8>) -> Seq<u8> {
    s + u16_be(spec_crc16(s))
}

/// The frame of a simple request.
pub open spec fn spec_simple_request(command: u8, payload: Seq<u8>) -> Seq<u8> {
    host_preamble() + seq![command] + payload
}

/// The frame of an extended request whose payload fits the length field.
pub open spec fn spec_extended_request(extended: u8, payload: Seq<u8>) -> Seq<u8>
    recommends
        payload.len() <= VAR_U16_MAX,
{
    with_crc(
        host_preamble() + seq![EXTENDED_COMMAND, extended] + varint::spec_encode(
            payload.len() as u16,
        ) + payload,
    )
}

/// The frame of a simple reply.
pub open spec fn spec_simple_reply(command: u8, payload: Seq<u8>) -> Seq<u8>
    recommends
        payload.len() <= VAR_U16_MAX,
{
    device_preamble() + seq![command] + varint::spec_encode(payload.len() as u16) + payload
}

/// The frame of an extended reply.
pub open spec fn spec_extended_reply(extended: u8, ack: u8, payload: Seq<u8>) -> Seq<u8>
    recommends
        payload.len() + 2 <= VAR_U16_MAX,
{
    with_crc(
        device_preamble() + seq![EXTENDED_COMMAND] + varint::spec_encode(
            (payload.len() + 2) as u16,
        ) + seq![extended, ack] + payload,
    )
}

fn push_crc(out: &mut Vec<u8>)
    ensures
        final(out)@ == with_crc(old(out)@),
{
    let crc: u16 = crc16(out.as_slice());
    out.push((crc / 0x100) as u8);
    out.push((crc % 0x100) as u8);
    assert(out@ =~= with_crc(old(out)@));
}

fn push_size(out: &mut Vec<u8>, size: u16)
    requires
        size <= VAR_U16_MAX,
    ensures
        final(out)@ == old(out)@ + varint::spec_encode(size),
{
    if size > 0x7F {
        out.push(((size / 0x100) as u8) + 0x80);
        out.push((size % 0x100) as u8);
    } else {
        out.push(size as u8);
    }
    assert(out@ =~= old(out)@ + varint::spec_encode(size));
}

/// Frames a simple request.
pub fn encode_simple(command: u8, payload: &[u8]) -> (r: Vec<u8>)
    ensures
        r@ == spec_simple_request(command, payload@),
{
    let mut out: Vec<u8> = Vec::new();
    out.push(0xC9);
    out.push(0x36);
    out.push(0xB8);
    out.push(0x47);
    out.push(command);
    assert(out@ =~= host_preamble() + seq![command]);
    append(&mut out, payload);
    out
}

/// Frames an extended request whose payload fits the length field.
pub(crate) fn encode_extended_short(extended: u8, payload: &[u8]) -> (r: Vec<u8>)
    requires
        payload@.len() <= VAR_U16_MAX,
    ensures
        r@ == spec_extended_request(extended, payload@),
{
    let mut out: Vec<u8> = Vec::new();
    out.push(0xC9);
    out.push(0x36);
    out.push(0xB8);
    out.push(0x47);
    out.push(EXTENDED_COMMAND);
    out.push(extended);
    assert(out@ =~= host_preamble() + seq![EXTENDED_COMMAND, extended]);
    push_size(&mut out, payload.len() as u16);
    append(&mut out, payload);
    push_crc(&mut out);
    out
}

/// Frames an extended request, unless the payload is too long for the
/// length field.
pub fn encode_extended(extended: u8, payload: &[u8]) -> (r: Result<Vec<u8>, EncodeError>)
    ensures
        payload@.len() <= VAR_U16_MAX ==> r is Ok && r->Ok_0@ == spec_extended_request(
            extended,
            payload@,
        ),
        payload@.len() > VAR_U16_MAX ==> r == Err::<Vec<u8>, EncodeError>(
            EncodeError::VarShortTooLarge,
        ),
{
    if payload.len() > VAR_U16_MAX as usize {
        Err(EncodeError::VarShortTooLarge)
    } else {
        Ok(encode_extended_short(extended, payload))
    }
}

/// Frames a simple reply, as a device does.
pub fn encode_simple_reply(command: u8, payload: &[u8]) -> (r: Result<Vec<u8>, EncodeError>)
    ensures
        payload@.len() <= VAR_U16_MAX ==> r is Ok && r->Ok_0@ == spec_simple_reply(
            command,
            payload@,
        ),
        payload@.len() > VAR_U16_MAX ==> r == Err::<Vec<u8>, EncodeError>(
            EncodeError::VarShortTooLarge,
        ),
{
    if payload.len() > VAR_U16_MAX as usize {
        return Err(EncodeError::VarShortTooLarge);
    }
    let mut out: Vec<u8> = Vec::new();
    out.push(0xAA);
    out.push(0x55);
    out.push(command);
    assert(out@ =~= device_preamble() + seq![command]);
    push_size(&mut out, payload.len() as u16);
    append(&mut out, payload);
    Ok(out)
}

/// Frames an extended reply, as a device does.
pub fn encode_extended_reply(extended: u8, ack: u8, payload: &[u8]) -> (r: Result<
    Vec<u8>,
    EncodeError,
>)
    ensures
        payload@.len() + 2 <= VAR_U16_MAX ==> r is Ok && r->Ok_0@ == spec_extended_reply(
            extended,
            ack,
            payload@,
        ),
        payload@.len() + 2 > VAR_U16_MAX ==> r == Err::<Vec<u8>, EncodeError>(
            EncodeError::VarShortTooLarge,
        ),
{
    if payload.len() > (VAR_U16_MAX as usize) - 2 {
        return Err(EncodeError::VarShortTooLarge);
    }
    let mut out: Vec<u8> = Vec::new();
    out.push(0xAA);
    out.push(0x55);
    out.push(EXTENDED_COMMAND);
    assert(out@ =~= device_preamble() + seq![EXTENDED_COMMAND]);
    push_size(&mut out, (payload.len() + 2) as u16);
    out.push(extended);
    out.push(ack);
    assert(out@ =~= device_preamble() + seq![EXTENDED_COMMAND] + varint::spec_encode(
        (payload@.len() + 2) as u16,
    ) + seq![extended, ack]);
    append(&mut out, payload);
    push_crc(&mut out);
    Ok(out)
}

/// Whether a reply's preamble stands at `i`.
pub open spec fn preamble_at(s: Seq<u8>, i: int) -> bool {
    0 <= i && i + 1 < s.len() && s[i] == 0xAA && s[i + 1] == 0x55
}

/// The first index from `from` on at which a preamble stands; where none
/// does, the first index at which there is no room for one.
pub open spec fn first_preamble(s: Seq<u8>, from: nat) -> nat
    decreases s.len() - from,
{
    if from + 1 >= s.len() || preamble_at(s, from as int) {
        from
    } else {
        first_preamble(s, from + 1)
    }
}

/// What the bytes received so far hold.
pub enum ScanView {
    /// No whole frame yet.
    Incomplete,
    /// Too many bytes without a preamble; `consumed` of them are of no use.
    NoFrameFound { consumed: nat },
    /// An extended frame whose CRC16 is wrong; it ends after `consumed`
    /// bytes.
    CrcError { consumed: nat },
    /// A simple frame: its command, the length it declares, and what has
    /// arrived of its payload.
    Simple { command: u8, declared: u16, payload: Seq<u8>, consumed: nat },
    /// An extended frame whose CRC16 is right: the bytes its length counts.
    Extended { body: Seq<u8>, consumed: nat },
}

/// What `s` holds. Bytes before the first preamble are skipped, up to
/// `MAX_GARBAGE` of them.
pub open spec fn spec_scan(s: Seq<u8>) -> ScanView {
    let p = first_preamble(s, 0) as int;
    if !preamble_at(s, p) || p > MAX_GARBAGE {
        if s.len() > MAX_GARBAGE + 1 {
            ScanView::NoFrameFound { consumed: (MAX_GARBAGE + 1) as nat }
        } else {
            ScanView::Incomplete
        }
    } else if p + 2 >= s.len() {
        ScanView::Incomplete
    } else {
        let command = s[p + 2];
        match varint::spec_decode(s.subrange(p + 3, s.len() as int)) {
            None => ScanView::Incomplete,
            Some((declared, n)) => {
                let start = p + 3 + n;
                if command == EXTENDED_COMMAND {
                    let end = start + declared;
                    if end + 2 > s.len() {
                        ScanView::Incomplete
                    } else {
                        let crc = spec_crc16(s.subrange(p, end));
                        if s[end] == (crc / 0x100) as u8 && s[end + 1] == (crc % 0x100) as u8 {
                            ScanView::Extended {
                                body: s.subrange(start, end),
                                consumed: (end + 2) as nat,
                            }
                        } else {
                            ScanView::CrcError { consumed: (end + 2) as nat }
                        }
                    }
                } else {
                    let end = if start + declared <= s.len() {
                        start + declared
                    } else {
                        s.len() as int
                    };
                    ScanView::Simple {
                        command,
                        declared,
                        payload: s.subrange(start, end),
                        consumed: end as nat,
                    }
                }
            },
        }
    }
}

/// The number of bytes an outcome is done with.
pub open spec fn spec_consumed(v: ScanView) -> nat {
    match v {
        ScanView::Incomplete => 0,
        ScanView::NoFrameFound { consumed } => consumed,
        ScanView::CrcError { consumed } => consumed,
        ScanView::Simple { consumed, .. } => consumed,
        ScanView::Extended { consumed, .. } => consumed,
    }
}

/// What the bytes received so far hold.
#[derive(Clone, Debug, PartialEq, Eq)]
pub enum Scan {
    Incomplete,
    NoFrameFound { consumed: usize },
    CrcError { consumed: usize },
    Simple { command: u8, declared: u16, payload: Vec<u8>, consumed: usize },
    Extended { body: Vec<u8>, consumed: usize },
}

impl View for Scan {
    type V = ScanView;

    open spec fn view(&self) -> ScanView {
        match self {
            Scan::Incomplete => ScanView::Incomplete,
            Scan::NoFrameFound { consumed } => ScanView::NoFrameFound {
                consumed: *consumed as nat,
            },
            Scan::CrcError { consumed } => ScanView::CrcError { consumed: *consumed as nat },
            Scan::Simple { command, declared, payload, consumed } => ScanView::Simple {
                command: *command,
                declared: *declared,
                payload: payload@,
                consumed: *consumed as nat,
            },
            Scan::Extended { body, consumed } => ScanView::Extended {
                body: body@,
                consumed: *consumed as nat,
            },
        }
    }
}

fn is_preamble(buf: &[u8], i: usize) -> (r: bool)
    requires
        i + 1 < buf@.len(),
    ensures
        r == preamble_at(buf@, i as int),
{
    buf[i] == 0xAA && buf[i + 1] == 0x55
}

/// No preamble stands between `from` and `first_preamble(s, from)`.
pub proof fn lemma_first_preamble(s: Seq<u8>, from: nat)
    ensures
        first_preamble(s, from) >= from,
        forall|i: int| from <= i < first_preamble(s, from) ==> !preamble_at(s, i),
        first_preamble(s, from) + 1 < s.len() ==> preamble_at(s, first_preamble(s, from) as int),
    decreases s.len() - from,
{
    if from + 1 >= s.len() || preamble_at(s, from as int) {
    } else {
        lemma_first_preamble(s, from + 1);
    }
}

/// Looks for a frame in the bytes received so far.
pub fn scan(buf: &[u8]) -> (r: Scan)
    ensures
        r@ == spec_scan(buf@),
        spec_consumed(r@) <= buf@.len(),
{
    let mut p: usize = 0;
    while p <= MAX_GARBAGE && p + 1 < buf.len() && !is_preamble(buf, p)
        invariant
            p <= MAX_GARBAGE + 1,
            p == 0 || p < buf@.len(),
            first_preamble(buf@, 0) == first_preamble(buf@, p as nat),
        decreases MAX_GARBAGE + 1 - p,
    {
        p = p + 1;
    }
    proof {
        lemma_first_preamble(buf@, p as nat);
    }
    if p > MAX_GARBAGE {
        return Scan::NoFrameFound { consumed: MAX_GARBAGE + 1 };
    }
    if p + 1 >= buf.len() {
        return Scan::Incomplete;
    }
    if p + 2 >= buf.len() {
        return Scan::Incomplete;
    }
    let command: u8 = buf[p + 2];
    let (declared, n) = match VarU16::decode_prefix(slice_subrange(buf, p + 3, buf.len())) {
        Ok((v, n)) => (v.into_inner(), n),
        Err(_) => { return Scan::Incomplete; },
    };
    let start: usize = p + 3 + n;
    if command == EXTENDED_COMMAND {
        if buf.len() - start < (declared as usize) + 2 {
            return Scan::Incomplete;
        }
        let end: usize = start + (declared as usize);
        let crc: u16 = crc16(slice_subrange(buf, p, end));
        let consumed: usize = end + 2;
        if buf[end] == (crc / 0x100) as u8 && buf[end + 1] == (crc % 0x100) as u8 {
            Scan::Extended { body: copy_range(buf, start, end), consumed }
        } else {
            Scan::CrcError { consumed }
        }
    } else {
        let end: usize = if buf.len() - start >= declared as usize {
            start + (declared as usize)
        } else {
            buf.len()
        };
        Scan::Simple { command, declared, payload: copy_range(buf, start, end), consumed: end }
    }
}

/// Whether no preamble stands in `garbage`, nor across its end into the
/// first byte of a frame behind it.
pub open spec fn preamble_free(garbage: Seq<u8>) -> bool {
    forall|i: int| 0 <= i < garbage.len() ==> !preamble_at(garbage + seq![0xAAu8], i)
}

proof fn lemma_first_preamble_is(s: Seq<u8>, from: nat, at: nat)
    requires
        from <= at,
        preamble_at(s, at as int),
        forall|i: int| from <= i < at ==> !preamble_at(s, i),
    ensures
        first_preamble(s, from) == at,
    decreases at - from,
{
    if from < at {
        lemma_first_preamble_is(s, from + 1, at);
    }
}

proof fn lemma_garbage_skipped(garbage: Seq<u8>, frame: Seq<u8>, rest: Seq<u8>)
    requires
        preamble_free(garbage),
        frame.len() >= 2,
        frame[0] == 0xAA,
        frame[1] == 0x55,
    ensures
        first_preamble(garbage + frame + rest, 0) == garbage.len(),
        preamble_at(garbage + frame + rest, garbage.len() as int),
{
    let s = garbage + frame + rest;
    let g = garbage.len() as int;
    let probe = garbage + seq![0xAAu8];
    assert(s[g] == frame[0]);
    assert(s[g + 1] == frame[1]);
    assert forall|i: int| 0 <= i < g implies !preamble_at(s, i) by {
        assert(!preamble_at(probe, i));
        assert(s[i] == probe[i]);
        assert(s[i + 1] == probe[i + 1]);
    }
    lemma_first_preamble_is(s, 0, g as nat);
}

/// An extended reply is found behind any run of at most `MAX_GARBAGE` bytes
/// that holds no preamble, and comes out as it went in; behind a longer run
/// it is not looked for.
pub proof fn lemma_extended_reply_found(
    garbage: Seq<u8>,
    extended: u8,
    ack: u8,
    payload: Seq<u8>,
    rest: Seq<u8>,
)
    requires
        preamble_free(garbage),
        payload.len() + 2 <= VAR_U16_MAX,
    ensures
        garbage.len() <= MAX_GARBAGE ==> spec_scan(
            garbage + spec_extended_reply(extended, ack, payload) + rest,
        ) == (ScanView::Extended {
            body: seq![extended, ack] + payload,
            consumed: garbage.len() + spec_extended_reply(extended, ack, payload).len(),
        }),
        garbage.len() > MAX_GARBAGE ==> spec_scan(
            garbage + spec_extended_reply(extended, ack, payload) + rest,
        ) == (ScanView::NoFrameFound { consumed: (MAX_GARBAGE + 1) as nat }),
{
    let size = (payload.len() + 2) as u16;
    let head = device_preamble() + seq![EXTENDED_COMMAND];
    let body = seq![extended, ack] + payload;
    let checked = head + varint::spec_encode(size) + seq![extended, ack] + payload;
    let frame = spec_extended_reply(extended, ack, payload);
    let s = garbage + frame + rest;
    let g = garbage.len() as int;
    let crc = spec_crc16(checked);
    assert(frame =~= checked + u16_be(crc));
    assert(frame[0] == 0xAA && frame[1] == 0x55);
    lemma_garbage_skipped(garbage, frame, rest);
    if g <= MAX_GARBAGE {
        let tail = body + u16_be(crc) + rest;
        varint::lemma_decode_encode(size, tail);
        assert(s.subrange(g + 3, s.len() as int) =~= varint::spec_encode(size) + tail);
        let n = varint::spec_encode(size).len() as int;
        let start = g + 3 + n;
        let end = start + size;
        assert(s[g + 2] == EXTENDED_COMMAND);
        assert(s.subrange(start, end) =~= body);
        assert(s.subrange(g, end) =~= checked);
        assert(s[end] == u16_be(crc)[0]);
        assert(s[end + 1] == u16_be(crc)[1]);
    }
}

/// A simple reply is found behind any run of at most `MAX_GARBAGE` bytes
/// that holds no preamble, and comes out as it went in.
pub proof fn lemma_simple_reply_found(
    garbage: Seq<u8>,
    command: u8,
    payload: Seq<u8>,
    rest: Seq<u8>,
)
    requires
        preamble_free(garbage),
        garbage.len() <= MAX_GARBAGE,
        payload.len() <= VAR_U16_MAX,
        command != EXTENDED_COMMAND,
    ensures
        spec_scan(garbage + spec_simple_reply(command, payload) + rest) == (ScanView::Simple {
            command,
            declared: payload.len() as u16,
            payload,
            consumed: garbage.len() + spec_simple_reply(command, payload).len(),
        }),
{
    let size = payload.len() as u16;
    let frame = spec_simple_reply(command, payload);
    let s = garbage + frame + rest;
    let g = garbage.len() as int;
    assert(frame[0] == 0xAA && frame[1] == 0x55);
    lemma_garbage_skipped(garbage, frame, rest);
    let tail = payload + rest;
    varint::lemma_decode_encode(size, tail);
    assert(s.subrange(g + 3, s.len() as int) =~= varint::spec_encode(size) + tail);
    let n = varint::spec_encode(size).len() as int;
    let start = g + 3 + n;
    assert(s[g + 2] == command);
    assert(s.subrange(start, start + size) =~= payload);
}

} // verus!
