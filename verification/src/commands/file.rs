//! The transfer of one file, in either direction.
//!
//! A session is opened, a linked file is named where there is one, the file
//! goes over chunk by chunk, and the session is closed. A reply that does
//! not acknowledge success ends the session at once, and so does any error
//! but the first timeout of a chunk, after which the chunk is sent once
//! more.

use vstd::prelude::*;
use crate::commands::{
    chunk_at, download_chunk_size, event_error, spec_download_chunk_size, spec_event_error,
    spec_upload_chunk_size, upload_chunk_size, ActionView, EventView, Progress, TransferAction,
    TransferEvent, TransferPhase, EXIT_WAIT_MS, REPLY_WAIT_MS,
};
use crate::crc::{crc32, spec_crc32};
use crate::device::file::VexFileTarget;
use crate::errors::{DeviceError, EncodeError};
use crate::packets::file::{
    spec_exit_payload, spec_init_payload, spec_named_file_payload, spec_read_payload,
    spec_write_payload, InitFields, InitFileTransferPayload, LinkFilePayload, ReadFilePayload,
    Version, WriteFilePayload,
};
use crate::packets::PacketKind;
use crate::protocol::{Reply, ReplyView, Request};
use crate::string::FixedLengthString;
use crate::v5::meta::{FileExitAction, FileInitAction, FileTransferOptions, FileTransferVID};
use crate::wire::{append, copy_range};
use vstd::slice::slice_subrange;

verus! {

/// The address at which the incremental image of a program is loaded.
pub const HOT_START: u32 = 0x0780_0000;

/// The version every session is opened with.
pub open spec fn spec_session_version() -> Version {
    Version { major: 1, minor: 0, build: 0, beta: 0 }
}

/// A file that the uploaded file needs beside it.
#[derive(Clone, Debug, PartialEq, Eq)]
pub struct LinkedFile {
    pub filename: FixedLengthString<23>,
    pub vendor: Option<FileTransferVID>,
}

/// A linked file as plain values.
pub struct LinkedFileView {
    pub filename: Seq<u8>,
    pub vendor: Option<FileTransferVID>,
}

/// A file to write to the device.
#[derive(Clone, Debug, PartialEq, Eq)]
pub struct UploadFile {
    pub filename: FixedLengthString<23>,
    pub filetype: FixedLengthString<3>,
    pub vendor: Option<FileTransferVID>,
    pub data: Vec<u8>,
    pub target: Option<VexFileTarget>,
    pub load_addr: u32,
    pub linked_file: Option<LinkedFile>,
    pub after_upload: FileExitAction,
}

/// An upload as plain values.
pub struct UploadFileView {
    pub filename: Seq<u8>,
    pub filetype: Seq<u8>,
    pub vendor: Option<FileTransferVID>,
    pub data: Seq<u8>,
    pub target: Option<VexFileTarget>,
    pub load_addr: u32,
    pub linked_file: Option<LinkedFileView>,
    pub after_upload: FileExitAction,
}

impl View for UploadFile {
    type V = UploadFileView;

    open spec fn view(&self) -> UploadFileView {
        UploadFileView {
            filename: self.filename@,
            filetype: self.filetype@,
            vendor: self.vendor,
            data: self.data@,
            target: self.target,
            load_addr: self.load_addr,
            linked_file: match self.linked_file {
                Some(l) => Some(LinkedFileView { filename: l.filename@, vendor: l.vendor }),
                None => None,
            },
            after_upload: self.after_upload,
        }
    }
}

/// Where an upload stands: the phase, the size of the chunks, the offset of
/// the chunk in flight and whether that chunk has been sent twice.
#[derive(Clone, Copy, Debug, PartialEq, Eq, Structural)]
pub struct UploadState {
    pub phase: TransferPhase,
    pub chunk_size: u16,
    pub offset: u32,
    pub retried: bool,
}

/// The vendor of a file that names none.
pub open spec fn spec_vendor(vendor: Option<FileTransferVID>) -> FileTransferVID {
    match vendor {
        Some(v) => v,
        None => FileTransferVID::User,
    }
}

/// The storage of a file that names none: the flash.
pub open spec fn spec_target(target: Option<VexFileTarget>) -> VexFileTarget {
    match target {
        Some(t) => t,
        None => VexFileTarget::FLASH,
    }
}

/// Whether the file ends within the 32-bit address space.
pub open spec fn spec_upload_fits(file: UploadFileView) -> bool {
    file.load_addr + file.data.len() <= u32::MAX
}

/// What the session of an upload is opened with.
pub open spec fn spec_upload_init(file: UploadFileView, timestamp: i32) -> InitFields {
    InitFields {
        operation: FileInitAction::Write,
        target: spec_target(file.target),
        vendor: spec_vendor(file.vendor),
        options: FileTransferOptions::OVERWRITE,
        write_file_size: file.data.len() as u32,
        load_address: file.load_addr,
        write_file_crc: spec_crc32(file.data),
        file_extension: file.filetype,
        timestamp,
        version: spec_session_version(),
        file_name: file.filename,
    }
}

/// The state of an upload that was given up.
pub open spec fn spec_upload_failed(state: UploadState) -> UploadState {
    UploadState {
        phase: TransferPhase::Failed,
        chunk_size: state.chunk_size,
        offset: state.offset,
        retried: state.retried,
    }
}

/// The request that writes the chunk at `offset`.
pub open spec fn spec_write_action(
    file: UploadFileView,
    chunk_size: u16,
    offset: int,
    progress: Option<Progress>,
) -> ActionView {
    ActionView::Send {
        kind: PacketKind::WriteFile,
        payload: spec_write_payload(
            (file.load_addr + offset) as u32,
            chunk_at(file.data, offset, chunk_size as int),
        ),
        timeout_ms: REPLY_WAIT_MS,
        progress,
    }
}

/// What follows once everything before `offset` is written: the chunk at
/// `offset`, with the progress so far, or the closing of the session, with
/// the progress complete.
pub open spec fn spec_upload_next(file: UploadFileView, chunk_size: u16, offset: int) -> (
    UploadState,
    ActionView,
) {
    if offset < file.data.len() {
        (
            UploadState {
                phase: TransferPhase::Transfer,
                chunk_size,
                offset: offset as u32,
                retried: false,
            },
            spec_write_action(
                file,
                chunk_size,
                offset,
                Some(Progress { done: offset as u64, total: file.data.len() as u64 }),
            ),
        )
    } else {
        (
            UploadState {
                phase: TransferPhase::Exit,
                chunk_size,
                offset: file.data.len() as u32,
                retried: false,
            },
            ActionView::Send {
                kind: PacketKind::ExitFileTransfer,
                payload: spec_exit_payload(file.after_upload),
                timeout_ms: EXIT_WAIT_MS,
                progress: Some(
                    Progress { done: file.data.len() as u64, total: file.data.len() as u64 },
                ),
            },
        )
    }
}

/// The step of an upload: the state and the action that follow `state` on
/// `event`.
pub open spec fn spec_upload_step(
    file: UploadFileView,
    timestamp: i32,
    state: UploadState,
    event: EventView,
) -> (UploadState, ActionView) {
    let failed = (spec_upload_failed(state), ActionView::Abort(spec_event_error(event)));
    if !spec_upload_fits(file) {
        (
            spec_upload_failed(state),
            ActionView::Abort(DeviceError::Encode(EncodeError::ValueTooLarge)),
        )
    } else {
        match state.phase {
            TransferPhase::Idle => match event {
                EventView::Start => (
                    UploadState {
                        phase: TransferPhase::Init,
                        chunk_size: state.chunk_size,
                        offset: 0,
                        retried: false,
                    },
                    ActionView::Send {
                        kind: PacketKind::InitFileTransfer,
                        payload: spec_init_payload(spec_upload_init(file, timestamp)),
                        timeout_ms: REPLY_WAIT_MS,
                        progress: None,
                    },
                ),
                _ => failed,
            },
            TransferPhase::Init => match event {
                EventView::Reply(ReplyView::InitFileTransfer(meta)) => if meta.crc != spec_crc32(
                    file.data,
                ) {
                    (
                        spec_upload_failed(state),
                        ActionView::Abort(
                            DeviceError::FileCrcMismatch {
                                host: spec_crc32(file.data),
                                device: meta.crc,
                            },
                        ),
                    )
                } else {
                    let chunk_size = spec_upload_chunk_size(meta.max_packet_size);
                    match file.linked_file {
                        Some(linked) => (
                            UploadState {
                                phase: TransferPhase::Link,
                                chunk_size,
                                offset: 0,
                                retried: false,
                            },
                            ActionView::Send {
                                kind: PacketKind::LinkFile,
                                payload: spec_named_file_payload(
                                    spec_vendor(linked.vendor),
                                    0,
                                    linked.filename,
                                ),
                                timeout_ms: REPLY_WAIT_MS,
                                progress: None,
                            },
                        ),
                        None => spec_upload_next(file, chunk_size, 0),
                    }
                },
                _ => failed,
            },
            TransferPhase::Link => match event {
                EventView::Reply(ReplyView::Ack) => spec_upload_next(file, state.chunk_size, 0),
                _ => failed,
            },
            TransferPhase::Transfer => match event {
                EventView::Reply(ReplyView::Ack) => spec_upload_next(
                    file,
                    state.chunk_size,
                    state.offset + state.chunk_size,
                ),
                EventView::Timeout => if !state.retried && state.offset < file.data.len() {
                    (
                        UploadState {
                            phase: TransferPhase::Transfer,
                            chunk_size: state.chunk_size,
                            offset: state.offset,
                            retried: true,
                        },
                        spec_write_action(file, state.chunk_size, state.offset as int, None),
                    )
                } else {
                    failed
                },
                _ => failed,
            },
            TransferPhase::Exit => match event {
                EventView::Reply(ReplyView::Ack) => (
                    UploadState {
                        phase: TransferPhase::Done,
                        chunk_size: state.chunk_size,
                        offset: state.offset,
                        retried: state.retried,
                    },
                    ActionView::Done,
                ),
                _ => failed,
            },
            TransferPhase::Done => (state, ActionView::Abort(DeviceError::NotSupported)),
            TransferPhase::Failed => (state, ActionView::Abort(DeviceError::NotSupported)),
        }
    }
}

impl UploadState {
    /// The state of a transfer of which nothing has been sent yet.
    pub fn new() -> (r: Self)
        ensures
            r == (UploadState {
                phase: TransferPhase::Idle,
                chunk_size: 0,
                offset: 0,
                retried: false,
            }),
    {
        UploadState { phase: TransferPhase::Idle, chunk_size: 0, offset: 0, retried: false }
    }
}

impl UploadFile {
    fn fits(&self) -> (r: bool)
        ensures
            r == spec_upload_fits(self@),
    {
        self.data.len() <= 0xFFFF_FFFF && (self.data.len() as u64) + (self.load_addr as u64)
            <= 0xFFFF_FFFF
    }

    fn init_request(&self, timestamp: i32) -> (r: Request)
        requires
            spec_upload_fits(self@),
        ensures
            r.spec_kind() == PacketKind::InitFileTransfer,
            r.spec_payload() == spec_init_payload(spec_upload_init(self@, timestamp)),
    {
        let payload = InitFileTransferPayload {
            operation: FileInitAction::Write,
            target: match self.target {
                Some(t) => t,
                None => VexFileTarget::FLASH,
            },
            vendor: match self.vendor {
                Some(v) => v,
                None => FileTransferVID::User,
            },
            options: FileTransferOptions::OVERWRITE,
            write_file_size: self.data.len() as u32,
            load_address: self.load_addr,
            write_file_crc: crc32(self.data.as_slice()),
            file_extension: self.filetype.clone(),
            timestamp,
            version: Version { major: 1, minor: 0, build: 0, beta: 0 },
            file_name: self.filename.clone(),
        };
        assert(payload@ == spec_upload_init(self@, timestamp));
        Request::InitFileTransfer(payload)
    }

    fn write_request(&self, chunk_size: u16, offset: u32) -> (r: Request)
        requires
            spec_upload_fits(self@),
            offset < self.data@.len(),
        ensures
            r.spec_kind() == PacketKind::WriteFile,
            r.spec_payload() == spec_write_payload(
                (self.load_addr + offset) as u32,
                chunk_at(self.data@, offset as int, chunk_size as int),
            ),
    {
        let from: usize = offset as usize;
        let to: usize = if self.data.len() - from <= chunk_size as usize {
            self.data.len()
        } else {
            from + (chunk_size as usize)
        };
        let chunk_data = copy_range(self.data.as_slice(), from, to);
        Request::WriteFile(WriteFilePayload { address: self.load_addr + offset, chunk_data })
    }

    fn next(&self, chunk_size: u16, offset: u64) -> (r: (UploadState, TransferAction))
        requires
            spec_upload_fits(self@),
        ensures
            r.0 == spec_upload_next(self@, chunk_size, offset as int).0,
            r.1@ == spec_upload_next(self@, chunk_size, offset as int).1,
    {
        let total: u64 = self.data.len() as u64;
        if offset < total {
            let request = self.write_request(chunk_size, offset as u32);
            (
                UploadState {
                    phase: TransferPhase::Transfer,
                    chunk_size,
                    offset: offset as u32,
                    retried: false,
                },
                TransferAction::Send {
                    request,
                    timeout_ms: REPLY_WAIT_MS,
                    progress: Some(Progress { done: offset, total }),
                },
            )
        } else {
            (
                UploadState {
                    phase: TransferPhase::Exit,
                    chunk_size,
                    offset: total as u32,
                    retried: false,
                },
                TransferAction::Send {
                    request: Request::ExitFileTransfer(self.after_upload),
                    timeout_ms: EXIT_WAIT_MS,
                    progress: Some(Progress { done: total, total }),
                },
            )
        }
    }

    /// Takes one step of the upload: from the state the upload is in and
    /// the event that has happened to the state it is in next and the
    /// action to perform. `timestamp` is the stamp the file gets; it is
    /// read at the step that opens the session.
    pub fn execute(&self, timestamp: i32, state: UploadState, event: TransferEvent) -> (r: (
        UploadState,
        TransferAction,
    ))
        ensures
            r.0 == spec_upload_step(self@, timestamp, state, event@).0,
            r.1@ == spec_upload_step(self@, timestamp, state, event@).1,
    {
        let failed_state = UploadState {
            phase: TransferPhase::Failed,
            chunk_size: state.chunk_size,
            offset: state.offset,
            retried: state.retried,
        };
        if !self.fits() {
            return (
                failed_state,
                TransferAction::Abort(DeviceError::Encode(EncodeError::ValueTooLarge)),
            );
        }
        let error = event_error(&event);
        let failed = (failed_state, TransferAction::Abort(error));
        match state.phase {
            TransferPhase::Idle => match event {
                TransferEvent::Start => (
                    UploadState {
                        phase: TransferPhase::Init,
                        chunk_size: state.chunk_size,
                        offset: 0,
                        retried: false,
                    },
                    TransferAction::Send {
                        request: self.init_request(timestamp),
                        timeout_ms: REPLY_WAIT_MS,
                        progress: None,
                    },
                ),
                _ => failed,
            },
            TransferPhase::Init => match event {
                TransferEvent::Reply(Reply::InitFileTransfer(meta)) => {
                    let host: u32 = crc32(self.data.as_slice());
                    if meta.crc != host {
                        (
                            failed_state,
                            TransferAction::Abort(
                                DeviceError::FileCrcMismatch { host, device: meta.crc },
                            ),
                        )
                    } else {
                        let chunk_size: u16 = upload_chunk_size(meta.max_packet_size);
                        match &self.linked_file {
                            Some(linked) => {
                                let payload = LinkFilePayload {
                                    vendor: match linked.vendor {
                                        Some(v) => v,
                                        None => FileTransferVID::User,
                                    },
                                    option: 0,
                                    required_file: linked.filename.clone(),
                                };
                                (
                                    UploadState {
                                        phase: TransferPhase::Link,
                                        chunk_size,
                                        offset: 0,
                                        retried: false,
                                    },
                                    TransferAction::Send {
                                        request: Request::LinkFile(payload),
                                        timeout_ms: REPLY_WAIT_MS,
                                        progress: None,
                                    },
                                )
                            },
                            None => self.next(chunk_size, 0),
                        }
                    }
                },
                _ => failed,
            },
            TransferPhase::Link => match event {
                TransferEvent::Reply(Reply::Ack) => self.next(state.chunk_size, 0),
                _ => failed,
            },
            TransferPhase::Transfer => match event {
                TransferEvent::Reply(Reply::Ack) => self.next(
                    state.chunk_size,
                    (state.offset as u64) + (state.chunk_size as u64),
                ),
                TransferEvent::Timeout => {
                    if !state.retried && (state.offset as u64) < (self.data.len() as u64) {
                        (
                            UploadState {
                                phase: TransferPhase::Transfer,
                                chunk_size: state.chunk_size,
                                offset: state.offset,
                                retried: true,
                            },
                            TransferAction::Send {
                                request: self.write_request(state.chunk_size, state.offset),
                                timeout_ms: REPLY_WAIT_MS,
                                progress: None,
                            },
                        )
                    } else {
                        failed
                    }
                },
                _ => failed,
            },
            TransferPhase::Exit => match event {
                TransferEvent::Reply(Reply::Ack) => (
                    UploadState {
                        phase: TransferPhase::Done,
                        chunk_size: state.chunk_size,
                        offset: state.offset,
                        retried: state.retried,
                    },
                    TransferAction::Done,
                ),
                _ => failed,
            },
            TransferPhase::Done => (state, TransferAction::Abort(DeviceError::NotSupported)),
            TransferPhase::Failed => (state, TransferAction::Abort(DeviceError::NotSupported)),
        }
    }
}

/// Whether `offset` is a whole number of chunks of `size` bytes.
#[verifier::opaque]
pub open spec fn whole_chunks(offset: int, size: int) -> bool {
    size > 0 && offset % size == 0
}

/// Whether the state of an upload is one that the steps lead to: while
/// chunks are in flight the chunk size is a multiple of four and the offset
/// a whole number of chunks.
pub open spec fn spec_upload_aligned(state: UploadState) -> bool {
    (state.phase == TransferPhase::Link || state.phase == TransferPhase::Transfer) ==> {
        &&& state.chunk_size > 0
        &&& state.chunk_size % 4 == 0
        &&& whole_chunks(state.offset as int, state.chunk_size as int)
    }
}

proof fn lemma_whole_chunks(offset: int, size: int)
    requires
        size > 0,
    ensures
        whole_chunks(0, size),
        whole_chunks(offset, size) ==> whole_chunks(offset + size, size),
{
    reveal(whole_chunks);
    if offset % size == 0 {
        assert((offset + size) % size == 0) by (nonlinear_arith)
            requires
                offset % size == 0,
                size > 0,
        ;
    }
}

/// Whether an action, where it writes a chunk, writes the chunk at the
/// offset of the state it comes with, and that chunk is either a whole one,
/// whose length is a multiple of four, or the last of the file.
pub open spec fn spec_writes_aligned(
    file: UploadFileView,
    next: UploadState,
    action: ActionView,
) -> bool {
    action matches ActionView::Send { kind: PacketKind::WriteFile, payload, .. } ==> {
        let chunk = chunk_at(file.data, next.offset as int, next.chunk_size as int);
        &&& next.phase == TransferPhase::Transfer
        &&& next.offset < file.data.len()
        &&& payload == spec_write_payload((file.load_addr + next.offset) as u32, chunk)
        &&& next.chunk_size % 4 == 0
        &&& (chunk.len() == next.chunk_size || next.offset + chunk.len() == file.data.len())
    }
}

proof fn lemma_upload_next_aligned(file: UploadFileView, chunk_size: u16, offset: int)
    requires
        spec_upload_fits(file),
        chunk_size > 0,
        chunk_size % 4 == 0,
        0 <= offset,
        whole_chunks(offset, chunk_size as int),
    ensures
        spec_upload_aligned(spec_upload_next(file, chunk_size, offset).0),
        spec_writes_aligned(
            file,
            spec_upload_next(file, chunk_size, offset).0,
            spec_upload_next(file, chunk_size, offset).1,
        ),
{
    if offset < file.data.len() {
        crate::commands::lemma_chunk_length(file.data, offset, chunk_size as int);
    }
}

proof fn lemma_upload_retry_aligned(file: UploadFileView, state: UploadState)
    requires
        spec_upload_fits(file),
        spec_upload_aligned(state),
        state.phase == TransferPhase::Transfer,
        state.offset < file.data.len(),
    ensures
        spec_writes_aligned(
            file,
            UploadState {
                phase: TransferPhase::Transfer,
                chunk_size: state.chunk_size,
                offset: state.offset,
                retried: true,
            },
            spec_write_action(file, state.chunk_size, state.offset as int, None),
        ),
{
    crate::commands::lemma_chunk_length(file.data, state.offset as int, state.chunk_size as int);
}

/// Every step of an upload keeps the state aligned, and what it writes is
/// aligned: the chunk at the offset of the new state, which is either a
/// whole chunk, whose length is a multiple of four, or the last chunk of
/// the file, which holds what is left of it.
pub proof fn lemma_upload_chunks_aligned(
    file: UploadFileView,
    timestamp: i32,
    state: UploadState,
    event: EventView,
)
    requires
        spec_upload_aligned(state),
    ensures
        spec_upload_aligned(spec_upload_step(file, timestamp, state, event).0),
        spec_writes_aligned(
            file,
            spec_upload_step(file, timestamp, state, event).0,
            spec_upload_step(file, timestamp, state, event).1,
        ),
{
    if spec_upload_fits(file) {
        match state.phase {
            TransferPhase::Init => {
                if let EventView::Reply(ReplyView::InitFileTransfer(meta)) = event {
                    let chunk_size = spec_upload_chunk_size(meta.max_packet_size);
                    crate::commands::lemma_chunk_sizes(meta.max_packet_size);
                    lemma_whole_chunks(0, chunk_size as int);
                    lemma_upload_next_aligned(file, chunk_size, 0);
                }
            },
            TransferPhase::Link => {
                lemma_whole_chunks(0, state.chunk_size as int);
                lemma_upload_next_aligned(file, state.chunk_size, 0);
            },
            TransferPhase::Transfer => {
                lemma_whole_chunks(state.offset as int, state.chunk_size as int);
                lemma_upload_next_aligned(
                    file,
                    state.chunk_size,
                    state.offset + state.chunk_size,
                );
                if state.offset < file.data.len() {
                    lemma_upload_retry_aligned(file, state);
                }
            },
            _ => {},
        }
    }
}

/// An error ends an upload that is under way: the error is handed on as it
/// came, and from then on no step sends anything.
pub proof fn lemma_upload_error_ends(
    file: UploadFileView,
    timestamp: i32,
    state: UploadState,
    error: DeviceError,
    later: EventView,
)
    requires
        spec_upload_fits(file),
        state.phase != TransferPhase::Done,
        state.phase != TransferPhase::Failed,
    ensures
        spec_upload_step(file, timestamp, state, EventView::Error(error)).1 == ActionView::Abort(
            error,
        ),
        spec_upload_step(file, timestamp, state, EventView::Error(error)).0.phase
            == TransferPhase::Failed,
        spec_upload_step(
            file,
            timestamp,
            spec_upload_step(file, timestamp, state, EventView::Error(error)).0,
            later,
        ).1 is Abort,
{
}

/// A file to read from the device.
#[derive(Clone, Debug, PartialEq, Eq)]
pub struct DownloadFile {
    pub filename: FixedLengthString<23>,
    pub filetype: FixedLengthString<3>,
    pub size: u32,
    pub vendor: FileTransferVID,
    pub target: Option<VexFileTarget>,
    pub load_addr: u32,
}

/// A download as plain values.
pub struct DownloadFileView {
    pub filename: Seq<u8>,
    pub filetype: Seq<u8>,
    pub size: u32,
    pub vendor: FileTransferVID,
    pub target: Option<VexFileTarget>,
    pub load_addr: u32,
}

impl View for DownloadFile {
    type V = DownloadFileView;

    open spec fn view(&self) -> DownloadFileView {
        DownloadFileView {
            filename: self.filename@,
            filetype: self.filetype@,
            size: self.size,
            vendor: self.vendor,
            target: self.target,
            load_addr: self.load_addr,
        }
    }
}

/// Where a download stands: the phase, the size of the chunks, the offset
/// of the chunk in flight, the size and the CRC the device has announced,
/// whether the chunk in flight has been asked for twice, and the bytes that
/// have come so far.
#[derive(Clone, Debug, PartialEq, Eq)]
pub struct DownloadState {
    pub phase: TransferPhase,
    pub chunk_size: u16,
    pub offset: u32,
    pub file_size: u32,
    pub crc: u32,
    pub retried: bool,
    pub data: Vec<u8>,
}

/// The state of a download as plain values.
pub struct DownloadStateView {
    pub phase: TransferPhase,
    pub chunk_size: u16,
    pub offset: u32,
    pub file_size: u32,
    pub crc: u32,
    pub retried: bool,
    pub data: Seq<u8>,
}

impl View for DownloadState {
    type V = DownloadStateView;

    open spec fn view(&self) -> DownloadStateView {
        DownloadStateView {
            phase: self.phase,
            chunk_size: self.chunk_size,
            offset: self.offset,
            file_size: self.file_size,
            crc: self.crc,
            retried: self.retried,
            data: self.data@,
        }
    }
}

/// What the session of a download is opened with.
pub open spec fn spec_download_init(file: DownloadFileView, timestamp: i32) -> InitFields {
    InitFields {
        operation: FileInitAction::Read,
        target: spec_target(file.target),
        vendor: file.vendor,
        options: FileTransferOptions::NONE,
        write_file_size: file.size,
        load_address: file.load_addr,
        write_file_crc: 0,
        file_extension: file.filetype,
        timestamp,
        version: spec_session_version(),
        file_name: file.filename,
    }
}

/// The state of a download that was given up.
pub open spec fn spec_download_failed(state: DownloadStateView) -> DownloadStateView {
    DownloadStateView {
        phase: TransferPhase::Failed,
        chunk_size: state.chunk_size,
        offset: state.offset,
        file_size: state.file_size,
        crc: state.crc,
        retried: state.retried,
        data: state.data,
    }
}

/// The request for the chunk at `offset`, or the failure where the chunk
/// starts outside the 32-bit address space.
pub open spec fn spec_read_action(
    file: DownloadFileView,
    chunk_size: u16,
    offset: int,
    progress: Option<Progress>,
) -> ActionView {
    if file.load_addr + offset > u32::MAX {
        ActionView::Abort(DeviceError::Encode(EncodeError::ValueTooLarge))
    } else {
        ActionView::Send {
            kind: PacketKind::ReadFile,
            payload: spec_read_payload((file.load_addr + offset) as u32, chunk_size),
            timeout_ms: REPLY_WAIT_MS,
            progress,
        }
    }
}

/// The state that goes with `spec_read_action`.
pub open spec fn spec_read_state(
    file: DownloadFileView,
    state: DownloadStateView,
    offset: int,
    retried: bool,
    data: Seq<u8>,
) -> DownloadStateView {
    DownloadStateView {
        phase: if file.load_addr + offset > u32::MAX {
            TransferPhase::Failed
        } else {
            TransferPhase::Transfer
        },
        chunk_size: state.chunk_size,
        offset: if file.load_addr + offset > u32::MAX {
            state.offset
        } else {
            offset as u32
        },
        file_size: state.file_size,
        crc: state.crc,
        retried,
        data,
    }
}

/// What follows a chunk that has come. The chunk is put behind the bytes
/// that came before. While fewer bytes have come than the file has, the
/// next chunk is asked for, one chunk size further on. Once all have come,
/// the CRC of as many bytes as the file has is held against the one the
/// device announced, and the session is closed where they agree.
pub open spec fn spec_download_chunk(
    file: DownloadFileView,
    state: DownloadStateView,
    chunk: Seq<u8>,
) -> (DownloadStateView, ActionView) {
    let data = state.data + chunk;
    let progress = Some(Progress { done: data.len() as u64, total: state.file_size as u64 });
    if data.len() >= state.file_size {
        let host = spec_crc32(data.subrange(0, state.file_size as int));
        if host != state.crc {
            (
                DownloadStateView {
                    phase: TransferPhase::Failed,
                    chunk_size: state.chunk_size,
                    offset: state.offset,
                    file_size: state.file_size,
                    crc: state.crc,
                    retried: state.retried,
                    data,
                },
                ActionView::Abort(DeviceError::FileCrcMismatch { host, device: state.crc }),
            )
        } else {
            (
                DownloadStateView {
                    phase: TransferPhase::Exit,
                    chunk_size: state.chunk_size,
                    offset: state.offset,
                    file_size: state.file_size,
                    crc: state.crc,
                    retried: false,
                    data,
                },
                ActionView::Send {
                    kind: PacketKind::ExitFileTransfer,
                    payload: spec_exit_payload(FileExitAction::DoNothing),
                    timeout_ms: REPLY_WAIT_MS,
                    progress,
                },
            )
        }
    } else {
        (
            spec_read_state(file, state, state.offset + state.chunk_size, false, data),
            spec_read_action(file, state.chunk_size, state.offset + state.chunk_size, progress),
        )
    }
}

/// The step of a download: the state and the action that follow `state` on
/// `event`.
pub open spec fn spec_download_step(
    file: DownloadFileView,
    timestamp: i32,
    state: DownloadStateView,
    event: EventView,
) -> (DownloadStateView, ActionView) {
    let failed = (spec_download_failed(state), ActionView::Abort(spec_event_error(event)));
    match state.phase {
        TransferPhase::Idle => match event {
            EventView::Start => (
                DownloadStateView {
                    phase: TransferPhase::Init,
                    chunk_size: state.chunk_size,
                    offset: 0,
                    file_size: state.file_size,
                    crc: state.crc,
                    retried: false,
                    data: state.data,
                },
                ActionView::Send {
                    kind: PacketKind::InitFileTransfer,
                    payload: spec_init_payload(spec_download_init(file, timestamp)),
                    timeout_ms: REPLY_WAIT_MS,
                    progress: None,
                },
            ),
            _ => failed,
        },
        TransferPhase::Init => match event {
            EventView::Reply(ReplyView::InitFileTransfer(meta)) => (
                DownloadStateView {
                    phase: TransferPhase::Transfer,
                    chunk_size: spec_download_chunk_size(meta.max_packet_size),
                    offset: 0,
                    file_size: meta.file_size,
                    crc: meta.crc,
                    retried: false,
                    data: state.data,
                },
                ActionView::Send {
                    kind: PacketKind::ReadFile,
                    payload: spec_read_payload(
                        file.load_addr,
                        spec_download_chunk_size(meta.max_packet_size),
                    ),
                    timeout_ms: REPLY_WAIT_MS,
                    progress: None,
                },
            ),
            _ => failed,
        },
        TransferPhase::Transfer => match event {
            EventView::Reply(ReplyView::ReadFile { address, data }) => spec_download_chunk(
                file,
                state,
                data,
            ),
            EventView::Timeout => if !state.retried {
                (
                    spec_read_state(file, state, state.offset as int, true, state.data),
                    spec_read_action(file, state.chunk_size, state.offset as int, None),
                )
            } else {
                failed
            },
            _ => failed,
        },
        TransferPhase::Exit => match event {
            EventView::Reply(ReplyView::Ack) => (
                DownloadStateView {
                    phase: TransferPhase::Done,
                    chunk_size: state.chunk_size,
                    offset: state.offset,
                    file_size: state.file_size,
                    crc: state.crc,
                    retried: state.retried,
                    data: state.data,
                },
                ActionView::Done,
            ),
            _ => failed,
        },
        TransferPhase::Link => failed,
        TransferPhase::Done => (state, ActionView::Abort(DeviceError::NotSupported)),
        TransferPhase::Failed => (state, ActionView::Abort(DeviceError::NotSupported)),
    }
}

impl DownloadState {
    /// The state of a download of which nothing has been sent yet.
    pub fn new() -> (r: Self)
        ensures
            r@ == (DownloadStateView {
                phase: TransferPhase::Idle,
                chunk_size: 0,
                offset: 0,
                file_size: 0,
                crc: 0,
                retried: false,
                data: Seq::<u8>::empty(),
            }),
    {
        DownloadState {
            phase: TransferPhase::Idle,
            chunk_size: 0,
            offset: 0,
            file_size: 0,
            crc: 0,
            retried: false,
            data: Vec::new(),
        }
    }

    /// The bytes that have come so far.
    pub fn into_data(self) -> (r: Vec<u8>)
        ensures
            r@ == self@.data,
    {
        self.data
    }
}

impl DownloadFile {
    fn init_request(&self, timestamp: i32) -> (r: Request)
        ensures
            r.spec_kind() == PacketKind::InitFileTransfer,
            r.spec_payload() == spec_init_payload(spec_download_init(self@, timestamp)),
    {
        let payload = InitFileTransferPayload {
            operation: FileInitAction::Read,
            target: match self.target {
                Some(t) => t,
                None => VexFileTarget::FLASH,
            },
            vendor: self.vendor,
            options: FileTransferOptions::NONE,
            write_file_size: self.size,
            load_address: self.load_addr,
            write_file_crc: 0,
            file_extension: self.filetype.clone(),
            timestamp,
            version: Version { major: 1, minor: 0, build: 0, beta: 0 },
            file_name: self.filename.clone(),
        };
        assert(payload@ == spec_download_init(self@, timestamp));
        Request::InitFileTransfer(payload)
    }

    fn read(
        &self,
        state: DownloadState,
        offset: u64,
        retried: bool,
        progress: Option<Progress>,
    ) -> (r: (DownloadState, TransferAction))
        ensures
            r.0@ == spec_read_state(self@, state@, offset as int, retried, state@.data),
            r.1@ == spec_read_action(self@, state.chunk_size, offset as int, progress),
    {
        let chunk_size: u16 = state.chunk_size;
        if offset > 0xFFFF_FFFF || (self.load_addr as u64) + offset > 0xFFFF_FFFF {
            (
                DownloadState {
                    phase: TransferPhase::Failed,
                    chunk_size,
                    offset: state.offset,
                    file_size: state.file_size,
                    crc: state.crc,
                    retried,
                    data: state.data,
                },
                TransferAction::Abort(DeviceError::Encode(EncodeError::ValueTooLarge)),
            )
        } else {
            let request = Request::ReadFile(
                ReadFilePayload { address: self.load_addr + (offset as u32), size: chunk_size },
            );
            (
                DownloadState {
                    phase: TransferPhase::Transfer,
                    chunk_size,
                    offset: offset as u32,
                    file_size: state.file_size,
                    crc: state.crc,
                    retried,
                    data: state.data,
                },
                TransferAction::Send { request, timeout_ms: REPLY_WAIT_MS, progress },
            )
        }
    }

    fn chunk(&self, state: DownloadState, chunk: &[u8]) -> (r: (DownloadState, TransferAction))
        ensures
            r.0@ == spec_download_chunk(self@, state@, chunk@).0,
            r.1@ == spec_download_chunk(self@, state@, chunk@).1,
    {
        let mut state = state;
        append(&mut state.data, chunk);
        let done: u64 = state.data.len() as u64;
        let progress = Some(Progress { done, total: state.file_size as u64 });
        if done >= state.file_size as u64 {
            let host: u32 = crc32(slice_subrange(state.data.as_slice(), 0, state.file_size as usize));
            if host != state.crc {
                let device: u32 = state.crc;
                (
                    DownloadState {
                        phase: TransferPhase::Failed,
                        chunk_size: state.chunk_size,
                        offset: state.offset,
                        file_size: state.file_size,
                        crc: state.crc,
                        retried: state.retried,
                        data: state.data,
                    },
                    TransferAction::Abort(DeviceError::FileCrcMismatch { host, device }),
                )
            } else {
                (
                    DownloadState {
                        phase: TransferPhase::Exit,
                        chunk_size: state.chunk_size,
                        offset: state.offset,
                        file_size: state.file_size,
                        crc: state.crc,
                        retried: false,
                        data: state.data,
                    },
                    TransferAction::Send {
                        request: Request::ExitFileTransfer(FileExitAction::DoNothing),
                        timeout_ms: REPLY_WAIT_MS,
                        progress,
                    },
                )
            }
        } else {
            let next: u64 = (state.offset as u64) + (state.chunk_size as u64);
            self.read(state, next, false, progress)
        }
    }

    /// Takes one step of the download: from the state the download is in
    /// and the event that has happened to the state it is in next and the
    /// action to perform. `timestamp` is the stamp the session is opened
    /// with.
    pub fn execute(&self, timestamp: i32, state: DownloadState, event: TransferEvent) -> (r: (
        DownloadState,
        TransferAction,
    ))
        ensures
            r.0@ == spec_download_step(self@, timestamp, state@, event@).0,
            r.1@ == spec_download_step(self@, timestamp, state@, event@).1,
    {
        let error = event_error(&event);
        match state.phase {
            TransferPhase::Idle => match event {
                TransferEvent::Start => (
                    DownloadState {
                        phase: TransferPhase::Init,
                        chunk_size: state.chunk_size,
                        offset: 0,
                        file_size: state.file_size,
                        crc: state.crc,
                        retried: false,
                        data: state.data,
                    },
                    TransferAction::Send {
                        request: self.init_request(timestamp),
                        timeout_ms: REPLY_WAIT_MS,
                        progress: None,
                    },
                ),
                _ => Self::fail(state, error),
            },
            TransferPhase::Init => match event {
                TransferEvent::Reply(Reply::InitFileTransfer(meta)) => {
                    let chunk_size: u16 = download_chunk_size(meta.max_packet_size);
                    (
                        DownloadState {
                            phase: TransferPhase::Transfer,
                            chunk_size,
                            offset: 0,
                            file_size: meta.file_size,
                            crc: meta.crc,
                            retried: false,
                            data: state.data,
                        },
                        TransferAction::Send {
                            request: Request::ReadFile(
                                ReadFilePayload { address: self.load_addr, size: chunk_size },
                            ),
                            timeout_ms: REPLY_WAIT_MS,
                            progress: None,
                        },
                    )
                },
                _ => Self::fail(state, error),
            },
            TransferPhase::Transfer => match event {
                TransferEvent::Reply(Reply::ReadFile(reply)) => self.chunk(
                    state,
                    reply.data.as_slice(),
                ),
                TransferEvent::Timeout => {
                    if !state.retried {
                        let offset: u64 = state.offset as u64;
                        self.read(state, offset, true, None)
                    } else {
                        Self::fail(state, error)
                    }
                },
                _ => Self::fail(state, error),
            },
            TransferPhase::Exit => match event {
                TransferEvent::Reply(Reply::Ack) => (
                    DownloadState {
                        phase: TransferPhase::Done,
                        chunk_size: state.chunk_size,
                        offset: state.offset,
                        file_size: state.file_size,
                        crc: state.crc,
                        retried: state.retried,
                        data: state.data,
                    },
                    TransferAction::Done,
                ),
                _ => Self::fail(state, error),
            },
            TransferPhase::Link => Self::fail(state, error),
            TransferPhase::Done => (state, TransferAction::Abort(DeviceError::NotSupported)),
            TransferPhase::Failed => (state, TransferAction::Abort(DeviceError::NotSupported)),
        }
    }

    fn fail(state: DownloadState, error: DeviceError) -> (r: (DownloadState, TransferAction))
        ensures
            r.0@ == spec_download_failed(state@),
            r.1@ == ActionView::Abort(error),
    {
        (
            DownloadState {
                phase: TransferPhase::Failed,
                chunk_size: state.chunk_size,
                offset: state.offset,
                file_size: state.file_size,
                crc: state.crc,
                retried: state.retried,
                data: state.data,
            },
            TransferAction::Abort(error),
        )
    }
}

/// A download never loses or reorders what has come: after any step the
/// bytes held are the bytes held before, with the chunk of the event behind
/// them where the event brought one, and every chunk asked for is as long
/// as the chunk size and starts a whole number of chunk sizes into the
/// file.
pub proof fn lemma_download_keeps_data(
    file: DownloadFileView,
    timestamp: i32,
    state: DownloadStateView,
    event: EventView,
)
    ensures
        spec_download_step(file, timestamp, state, event).0.data == if state.phase
            == TransferPhase::Transfer {
            match event {
                EventView::Reply(ReplyView::ReadFile { address, data }) => state.data + data,
                _ => state.data,
            }
        } else {
            state.data
        },
        spec_download_step(file, timestamp, state, event).1 matches ActionView::Send {
            kind: PacketKind::ReadFile,
            payload,
            ..
        } ==> {
            let next = spec_download_step(file, timestamp, state, event).0;
            &&& next.phase == TransferPhase::Transfer
            &&& payload == spec_read_payload((file.load_addr + next.offset) as u32, next.chunk_size)
            &&& (next.offset == 0 || next.offset == state.offset || next.offset == state.offset
                + state.chunk_size)
        },
{
}

/// An error ends a download that is under way: the error is handed on as
/// it came, and from then on no step sends anything.
pub proof fn lemma_download_error_ends(
    file: DownloadFileView,
    timestamp: i32,
    state: DownloadStateView,
    error: DeviceError,
    later: EventView,
)
    requires
        state.phase != TransferPhase::Done,
        state.phase != TransferPhase::Failed,
    ensures
        spec_download_step(file, timestamp, state, EventView::Error(error)).1
            == ActionView::Abort(error),
        spec_download_step(file, timestamp, state, EventView::Error(error)).0.phase
            == TransferPhase::Failed,
        spec_download_step(
            file,
            timestamp,
            spec_download_step(file, timestamp, state, EventView::Error(error)).0,
            later,
        ).1 is Abort,
{
}

} // verus!
