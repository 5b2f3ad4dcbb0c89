//! The workflows that take more than one exchange: the transfer of a file
//! and the upload of a program.
//!
//! Each workflow is a step function. It takes the state of the workflow and
//! the event that has just happened and returns the next state and what to
//! do next. The caller performs the action, waits, and comes back with the
//! next event.

pub mod file;
pub mod program;

use vstd::prelude::*;
use crate::errors::DeviceError;
use crate::packets::PacketKind;
use crate::protocol::{Reply, ReplyView, Request};

verus! {

/// The largest chunk a transfer moves in one packet.
pub const USER_PROGRAM_CHUNK_SIZE: u16 = 4096;

/// How long a reply is waited for, in milliseconds.
pub const REPLY_WAIT_MS: u64 = 100;

/// How long the reply to the closing of an upload is waited for, in
/// milliseconds. The device may be busy doing what the closing asked for.
pub const EXIT_WAIT_MS: u64 = 200;

/// How far a transfer has come: `done` bytes of `total`.
#[derive(Clone, Copy, Debug, PartialEq, Eq, Structural)]
pub struct Progress {
    pub done: u64,
    pub total: u64,
}

/// Where a transfer stands.
#[derive(Clone, Copy, Debug, PartialEq, Eq, Structural)]
pub enum TransferPhase {
    /// Nothing has been sent yet.
    Idle,
    /// The opening of the session awaits its reply.
    Init,
    /// The naming of the linked file awaits its reply.
    Link,
    /// A chunk awaits its reply.
    Transfer,
    /// The closing of the session awaits its reply.
    Exit,
    /// The session is closed.
    Done,
    /// The session was given up.
    Failed,
}

/// What has happened since the last action.
#[derive(Clone, Debug, PartialEq, Eq)]
pub enum TransferEvent {
    /// The caller asks for the first action.
    Start,
    /// The reply has come.
    Reply(Reply),
    /// The deadline has passed.
    Timeout,
    /// The exchange has failed.
    Error(DeviceError),
}

/// An event as plain values.
pub enum EventView {
    Start,
    Reply(ReplyView),
    Timeout,
    Error(DeviceError),
}

impl View for TransferEvent {
    type V = EventView;

    open spec fn view(&self) -> EventView {
        match self {
            TransferEvent::Start => EventView::Start,
            TransferEvent::Reply(r) => EventView::Reply(r@),
            TransferEvent::Timeout => EventView::Timeout,
            TransferEvent::Error(e) => EventView::Error(*e),
        }
    }
}

/// What to do next.
#[derive(Clone, Debug, PartialEq, Eq)]
pub enum TransferAction {
    /// Report the progress, if any, then send the request and wait for its
    /// reply that long.
    Send { request: Request, timeout_ms: u64, progress: Option<Progress> },
    /// The transfer is complete.
    Done,
    /// The transfer is given up. Nothing more is to be sent.
    Abort(DeviceError),
}

/// An action as plain values: a request is the kind it is of and the bytes
/// of its payload.
pub enum ActionView {
    Send { kind: PacketKind, payload: Seq<u8>, timeout_ms: u64, progress: Option<Progress> },
    Done,
    Abort(DeviceError),
}

impl View for TransferAction {
    type V = ActionView;

    open spec fn view(&self) -> ActionView {
        match self {
            TransferAction::Send { request, timeout_ms, progress } => ActionView::Send {
                kind: request.spec_kind(),
                payload: request.spec_payload(),
                timeout_ms: *timeout_ms,
                progress: *progress,
            },
            TransferAction::Done => ActionView::Done,
            TransferAction::Abort(e) => ActionView::Abort(*e),
        }
    }
}

/// The error that an event stands for where it is not the one awaited.
pub open spec fn spec_event_error(event: EventView) -> DeviceError {
    match event {
        EventView::Timeout => DeviceError::Timeout,
        EventView::Error(e) => e,
        EventView::Start => DeviceError::NotSupported,
        EventView::Reply(_) => DeviceError::NotSupported,
    }
}

/// The error that an event stands for where it is not the one awaited.
pub fn event_error(event: &TransferEvent) -> (r: DeviceError)
    ensures
        r == spec_event_error(event@),
{
    match event {
        TransferEvent::Timeout => DeviceError::Timeout,
        TransferEvent::Error(e) => *e,
        TransferEvent::Start => DeviceError::NotSupported,
        TransferEvent::Reply(_) => DeviceError::NotSupported,
    }
}

/// The size of the chunks of a download for a device that takes `window`
/// bytes at a time: the window where it is between one and the largest
/// chunk, the largest chunk otherwise.
pub open spec fn spec_download_chunk_size(window: u16) -> u16 {
    if 0 < window <= USER_PROGRAM_CHUNK_SIZE {
        window
    } else {
        USER_PROGRAM_CHUNK_SIZE
    }
}

/// The size of the chunks of an upload for a device that takes `window`
/// bytes at a time: the size for a download, raised to the next multiple of
/// four.
pub open spec fn spec_upload_chunk_size(window: u16) -> u16 {
    let size = spec_download_chunk_size(window);
    if size % 4 != 0 {
        (size + (4 - size % 4)) as u16
    } else {
        size
    }
}

/// The size of the chunks of a download.
pub fn download_chunk_size(window: u16) -> (r: u16)
    ensures
        r == spec_download_chunk_size(window),
{
    if window > 0 && window <= USER_PROGRAM_CHUNK_SIZE {
        window
    } else {
        USER_PROGRAM_CHUNK_SIZE
    }
}

/// The size of the chunks of an upload.
pub fn upload_chunk_size(window: u16) -> (r: u16)
    ensures
        r == spec_upload_chunk_size(window),
{
    let size: u16 = download_chunk_size(window);
    if size % 4 != 0 {
        size + (4 - size % 4)
    } else {
        size
    }
}

/// The chunk of `data` that starts at `offset` and is `size` bytes long, or
/// as long as what is left of `data`.
pub open spec fn chunk_at(data: Seq<u8>, offset: int, size: int) -> Seq<u8> {
    data.subrange(
        offset,
        if offset + size <= data.len() {
            offset + size
        } else {
            data.len() as int
        },
    )
}

/// The chunks of `data` from `offset` on, one behind the other.
pub open spec fn chunks_from(data: Seq<u8>, offset: int, size: int) -> Seq<u8>
    decreases data.len() - offset,
{
    if size <= 0 || offset < 0 || offset >= data.len() {
        Seq::empty()
    } else if offset + size >= data.len() {
        chunk_at(data, offset, size)
    } else {
        chunk_at(data, offset, size) + chunks_from(data, offset + size, size)
    }
}

/// A chunk size is never zero and never over the largest chunk. For a
/// download it is the window where that is allowed. For an upload it is a
/// multiple of four, and the first one that is not under the window.
pub proof fn lemma_chunk_sizes(window: u16)
    ensures
        0 < spec_download_chunk_size(window) <= USER_PROGRAM_CHUNK_SIZE,
        0 < spec_upload_chunk_size(window) <= USER_PROGRAM_CHUNK_SIZE,
        spec_upload_chunk_size(window) % 4 == 0,
        0 < window <= USER_PROGRAM_CHUNK_SIZE ==> spec_download_chunk_size(window) == window,
        0 < window <= USER_PROGRAM_CHUNK_SIZE ==> window <= spec_upload_chunk_size(window) < window
            + 4,
{
}

/// Every chunk but the last is as long as the chunk size. The last one is
/// what is left: where the chunks started at a multiple of the chunk size,
/// the length of the data modulo the chunk size, or a whole chunk.
pub proof fn lemma_chunk_length(data: Seq<u8>, offset: int, size: int)
    requires
        size > 0,
        0 <= offset < data.len(),
    ensures
        offset + size <= data.len() ==> chunk_at(data, offset, size).len() == size,
        offset + size > data.len() ==> chunk_at(data, offset, size).len() == data.len() - offset,
        offset + size > data.len() && offset % size == 0 ==> data.len() - offset == data.len()
            % (size as nat),
{
    if offset + size > data.len() && offset % size == 0 {
        let len = data.len() as int;
        let k = offset / size;
        assert(offset == k * size) by (nonlinear_arith)
            requires
                offset % size == 0,
                k == offset / size,
                size > 0,
        ;
        assert(len % size == len - offset) by (nonlinear_arith)
            requires
                offset == k * size,
                0 <= len - offset < size,
                size > 0,
        {
            vstd::arithmetic::div_mod::lemma_fundamental_div_mod_converse(
                len,
                size,
                k,
                len - offset,
            );
        }
    }
}

/// The chunks from an offset on, one behind the other, are the data from
/// that offset on: nothing is left out, nothing comes twice, and the order
/// is kept.
pub proof fn lemma_chunks_cover(data: Seq<u8>, offset: int, size: int)
    requires
        size > 0,
        0 <= offset <= data.len(),
    ensures
        chunks_from(data, offset, size) == data.subrange(offset, data.len() as int),
    decreases data.len() - offset,
{
    if offset < data.len() {
        if offset + size < data.len() {
            lemma_chunks_cover(data, offset + size, size);
            assert(chunk_at(data, offset, size) + data.subrange(offset + size, data.len() as int)
                =~= data.subrange(offset, data.len() as int));
        }
    } else {
        assert(data.subrange(offset, data.len() as int) =~= Seq::<u8>::empty());
    }
}

} // verus!
