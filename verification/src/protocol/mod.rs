//! The wire protocol: frames, and the typed requests and replies they carry.

pub mod frame;

use vstd::prelude::*;
use crate::device::file::VexFiletransferMetadata;
use crate::errors::{DecodeError, DeviceError, EncodeError, PacketId};
use crate::packets::controller::{
    encode_switch, spec_decode_user_fifo_reply, spec_switch_payload, spec_user_fifo_payload,
    UserFifoPayload, UserFifoReplyPayload,
};
use crate::packets::file::{
    decode_init_reply, decode_read_reply, encode_exit, spec_decode_init_reply,
    spec_decode_read_reply, spec_exit_payload, spec_init_payload, spec_named_file_payload,
    spec_read_payload, spec_write_payload, GetFileMetadataByName, InitFileTransferPayload,
    LinkFilePayload, ReadFilePayload, ReadFileReply, WriteFilePayload,
};
use crate::packets::system::V5DeviceVersion;
use crate::packets::{PacketKind, ACK_SUCCESS, EXTENDED_COMMAND};
use crate::protocol::frame::{
    encode_extended, encode_simple, scan, spec_extended_request, spec_scan, spec_simple_request,
    Scan, ScanView,
};
use crate::v5::meta::{FileExitAction, V5ControllerChannel};
use crate::varint::{self, VarU16, VAR_U16_MAX};
use crate::wire::{append, copy_range};
use vstd::slice::slice_subrange;

verus! {

/// A request of the catalog with its payload.
#[derive(Clone, Debug, PartialEq, Eq)]
pub enum Request {
    GetSystemVersion,
    GetDeviceStatus,
    InitFileTransfer(InitFileTransferPayload),
    ExitFileTransfer(FileExitAction),
    WriteFile(WriteFilePayload),
    ReadFile(ReadFilePayload),
    LinkFile(LinkFilePayload),
    GetFileMetadataByName(GetFileMetadataByName),
    SwitchChannel(V5ControllerChannel),
    UserFifo(UserFifoPayload),
    /// A key to read; the payload is handed on as it is.
    KVRead(Vec<u8>),
    /// A key and its value to write; the payload is handed on as it is.
    KVWrite(Vec<u8>),
}

impl Request {
    /// The kind of the request.
    pub open spec fn spec_kind(self) -> PacketKind {
        match self {
            Request::GetSystemVersion => PacketKind::GetSystemVersion,
            Request::GetDeviceStatus => PacketKind::GetDeviceStatus,
            Request::InitFileTransfer(_) => PacketKind::InitFileTransfer,
            Request::ExitFileTransfer(_) => PacketKind::ExitFileTransfer,
            Request::WriteFile(_) => PacketKind::WriteFile,
            Request::ReadFile(_) => PacketKind::ReadFile,
            Request::LinkFile(_) => PacketKind::LinkFile,
            Request::GetFileMetadataByName(_) => PacketKind::GetFileMetadataByName,
            Request::SwitchChannel(_) => PacketKind::SwitchChannel,
            Request::UserFifo(_) => PacketKind::UserFifo,
            Request::KVRead(_) => PacketKind::KVRead,
            Request::KVWrite(_) => PacketKind::KVWrite,
        }
    }

    /// The payload of the request.
    pub open spec fn spec_payload(self) -> Seq<u8> {
        match self {
            Request::GetSystemVersion => Seq::empty(),
            Request::GetDeviceStatus => Seq::empty(),
            Request::InitFileTransfer(p) => spec_init_payload(p@),
            Request::ExitFileTransfer(a) => spec_exit_payload(a),
            Request::WriteFile(p) => spec_write_payload(p.address, p.chunk_data@),
            Request::ReadFile(p) => spec_read_payload(p.address, p.size),
            Request::LinkFile(p) => spec_named_file_payload(p.vendor, p.option, p.required_file@),
            Request::GetFileMetadataByName(p) => spec_named_file_payload(
                p.vendor,
                p.option,
                p.file_name@,
            ),
            Request::SwitchChannel(c) => spec_switch_payload(c),
            Request::UserFifo(p) => spec_user_fifo_payload(p.channel, p.spec_write()),
            Request::KVRead(p) => p@,
            Request::KVWrite(p) => p@,
        }
    }

    /// The frame that carries a payload as a request of a kind, unless the
    /// payload is too long for the length field of an extended frame.
    pub open spec fn spec_frame_of(kind: PacketKind, payload: Seq<u8>) -> Result<
        Seq<u8>,
        EncodeError,
    > {
        match kind.spec_id().extended {
            None => Ok(spec_simple_request(kind.spec_id().command, payload)),
            Some(extended) => if payload.len() <= VAR_U16_MAX {
                Ok(spec_extended_request(extended, payload))
            } else {
                Err(EncodeError::VarShortTooLarge)
            },
        }
    }

    /// The frame of the request.
    pub open spec fn spec_frame(self) -> Result<Seq<u8>, EncodeError> {
        Self::spec_frame_of(self.spec_kind(), self.spec_payload())
    }

    /// The kind of the request.
    pub fn kind(&self) -> (r: PacketKind)
        ensures
            r == self.spec_kind(),
    {
        match self {
            Request::GetSystemVersion => PacketKind::GetSystemVersion,
            Request::GetDeviceStatus => PacketKind::GetDeviceStatus,
            Request::InitFileTransfer(_) => PacketKind::InitFileTransfer,
            Request::ExitFileTransfer(_) => PacketKind::ExitFileTransfer,
            Request::WriteFile(_) => PacketKind::WriteFile,
            Request::ReadFile(_) => PacketKind::ReadFile,
            Request::LinkFile(_) => PacketKind::LinkFile,
            Request::GetFileMetadataByName(_) => PacketKind::GetFileMetadataByName,
            Request::SwitchChannel(_) => PacketKind::SwitchChannel,
            Request::UserFifo(_) => PacketKind::UserFifo,
            Request::KVRead(_) => PacketKind::KVRead,
            Request::KVWrite(_) => PacketKind::KVWrite,
        }
    }

    /// The bytes of the payload.
    pub fn encode_payload(&self) -> (r: Vec<u8>)
        ensures
            r@ == self.spec_payload(),
    {
        match self {
            Request::GetSystemVersion => Vec::new(),
            Request::GetDeviceStatus => Vec::new(),
            Request::InitFileTransfer(p) => p.encode(),
            Request::ExitFileTransfer(a) => encode_exit(*a),
            Request::WriteFile(p) => p.encode(),
            Request::ReadFile(p) => p.encode(),
            Request::LinkFile(p) => p.encode(),
            Request::GetFileMetadataByName(p) => p.encode(),
            Request::SwitchChannel(c) => encode_switch(*c),
            Request::UserFifo(p) => p.encode(),
            Request::KVRead(p) => {
                let raw = copy_range(p.as_slice(), 0, p.len());
                assert(raw@ =~= p@);
                raw
            },
            Request::KVWrite(p) => {
                let raw = copy_range(p.as_slice(), 0, p.len());
                assert(raw@ =~= p@);
                raw
            },
        }
    }

    /// The bytes of the frame.
    pub fn encode(&self) -> (r: Result<Vec<u8>, EncodeError>)
        ensures
            match self.spec_frame() {
                Ok(frame) => r is Ok && r->Ok_0@ == frame,
                Err(e) => r == Err::<Vec<u8>, EncodeError>(e),
            },
    {
        let payload = self.encode_payload();
        let id = self.kind().id();
        match id.extended {
            None => Ok(encode_simple(id.command, payload.as_slice())),
            Some(extended) => encode_extended(extended, payload.as_slice()),
        }
    }
}

/// A reply of the catalog with what it carries.
#[derive(Clone, Debug, PartialEq, Eq)]
pub enum Reply {
    SystemVersion(V5DeviceVersion),
    InitFileTransfer(VexFiletransferMetadata),
    ReadFile(ReadFileReply),
    UserFifo(UserFifoReplyPayload),
    /// The device has done what was asked; nothing comes back.
    Ack,
    /// A payload this driver hands on as it is.
    Raw(Vec<u8>),
}

/// A reply as plain values.
pub enum ReplyView {
    SystemVersion(V5DeviceVersion),
    InitFileTransfer(VexFiletransferMetadata),
    ReadFile { address: u32, data: Seq<u8> },
    UserFifo { channel: u8, text: Option<Seq<u8>> },
    Ack,
    Raw(Seq<u8>),
}

impl View for Reply {
    type V = ReplyView;

    open spec fn view(&self) -> ReplyView {
        match self {
            Reply::SystemVersion(v) => ReplyView::SystemVersion(*v),
            Reply::InitFileTransfer(m) => ReplyView::InitFileTransfer(*m),
            Reply::ReadFile(r) => ReplyView::ReadFile { address: r.address, data: r.data@ },
            Reply::UserFifo(r) => ReplyView::UserFifo { channel: r.channel, text: r.spec_data() },
            Reply::Ack => ReplyView::Ack,
            Reply::Raw(p) => ReplyView::Raw(p@),
        }
    }
}

/// What a payload says as the reply of a kind.
pub open spec fn spec_decode_payload(kind: PacketKind, payload: Seq<u8>) -> Result<
    ReplyView,
    DeviceError,
> {
    match kind {
        PacketKind::GetSystemVersion => match V5DeviceVersion::spec_decode(payload) {
            Ok(v) => Ok(ReplyView::SystemVersion(v)),
            Err(e) => Err(e),
        },
        PacketKind::InitFileTransfer => match spec_decode_init_reply(payload) {
            Some(m) => Ok(ReplyView::InitFileTransfer(m)),
            None => Err(DeviceError::Decode(DecodeError::UnexpectedEnd)),
        },
        PacketKind::ReadFile => match spec_decode_read_reply(payload) {
            Some((address, data)) => Ok(ReplyView::ReadFile { address, data }),
            None => Err(DeviceError::Decode(DecodeError::UnexpectedEnd)),
        },
        PacketKind::UserFifo => match spec_decode_user_fifo_reply(payload) {
            Ok((channel, text)) => Ok(ReplyView::UserFifo { channel, text }),
            Err(e) => Err(DeviceError::Decode(e)),
        },
        PacketKind::ExitFileTransfer
        | PacketKind::WriteFile
        | PacketKind::LinkFile
        | PacketKind::SwitchChannel
        | PacketKind::KVWrite => Ok(ReplyView::Ack),
        PacketKind::GetDeviceStatus
        | PacketKind::GetFileMetadataByName
        | PacketKind::KVRead => Ok(ReplyView::Raw(payload)),
    }
}

/// What the counted bytes of an extended frame say as the reply of a kind.
/// They start with the inner command, which must be the kind's, and the
/// acknowledgement, which must be success; the payload follows.
pub open spec fn spec_decode_body(kind: PacketKind, body: Seq<u8>) -> Result<
    ReplyView,
    DeviceError,
> {
    if body.len() < 1 {
        Err(DeviceError::Decode(DecodeError::UnexpectedEnd))
    } else if kind.spec_id().extended != Some(body[0]) {
        Err(
            DeviceError::UnexpectedCommand {
                got: PacketId { command: EXTENDED_COMMAND, extended: Some(body[0]) },
                expected: kind.spec_id(),
            },
        )
    } else if body.len() < 2 {
        Err(DeviceError::Decode(DecodeError::UnexpectedEnd))
    } else if body[1] != ACK_SUCCESS {
        Err(DeviceError::Nack(body[1]))
    } else {
        spec_decode_payload(kind, body.subrange(2, body.len() as int))
    }
}

/// Reads a payload as the reply of a kind.
pub fn decode_payload(kind: PacketKind, payload: &[u8]) -> (r: Result<Reply, DeviceError>)
    ensures
        match spec_decode_payload(kind, payload@) {
            Ok(v) => r is Ok && r->Ok_0@ == v,
            Err(e) => r == Err::<Reply, DeviceError>(e),
        },
{
    match kind {
        PacketKind::GetSystemVersion => match V5DeviceVersion::decode(payload) {
            Ok(v) => Ok(Reply::SystemVersion(v)),
            Err(e) => Err(e),
        },
        PacketKind::InitFileTransfer => match decode_init_reply(payload) {
            Ok(m) => Ok(Reply::InitFileTransfer(m)),
            Err(e) => Err(DeviceError::Decode(e)),
        },
        PacketKind::ReadFile => match decode_read_reply(payload) {
            Ok(r) => Ok(Reply::ReadFile(r)),
            Err(e) => Err(DeviceError::Decode(e)),
        },
        PacketKind::UserFifo => match UserFifoReplyPayload::decode(payload) {
            Ok(r) => Ok(Reply::UserFifo(r)),
            Err(e) => Err(DeviceError::Decode(e)),
        },
        PacketKind::ExitFileTransfer
        | PacketKind::WriteFile
        | PacketKind::LinkFile
        | PacketKind::SwitchChannel
        | PacketKind::KVWrite => Ok(Reply::Ack),
        PacketKind::GetDeviceStatus
        | PacketKind::GetFileMetadataByName
        | PacketKind::KVRead => {
            let raw = copy_range(payload, 0, payload.len());
            assert(raw@ =~= payload@);
            Ok(Reply::Raw(raw))
        },
    }
}

/// Reads the counted bytes of an extended frame as the reply of a kind.
pub fn decode_body(kind: PacketKind, body: &[u8]) -> (r: Result<Reply, DeviceError>)
    ensures
        match spec_decode_body(kind, body@) {
            Ok(v) => r is Ok && r->Ok_0@ == v,
            Err(e) => r == Err::<Reply, DeviceError>(e),
        },
{
    if body.len() < 1 {
        return Err(DeviceError::Decode(DecodeError::UnexpectedEnd));
    }
    let expected = kind.id();
    let matches = match expected.extended {
        Some(e) => e == body[0],
        None => false,
    };
    if !matches {
        return Err(
            DeviceError::UnexpectedCommand {
                got: PacketId { command: EXTENDED_COMMAND, extended: Some(body[0]) },
                expected,
            },
        );
    }
    if body.len() < 2 {
        return Err(DeviceError::Decode(DecodeError::UnexpectedEnd));
    }
    if body[1] != ACK_SUCCESS {
        return Err(DeviceError::Nack(body[1]));
    }
    decode_payload(kind, slice_subrange(body, 2, body.len()))
}

/// What the bytes received so far hold for a request that awaits its reply.
pub enum ReceivedView {
    /// No whole reply yet.
    Incomplete,
    /// The reply, which ends after `consumed` bytes.
    Reply { reply: ReplyView, consumed: nat },
    /// What went wrong, and how many bytes are done with.
    Failed { error: DeviceError, consumed: nat },
}

/// The number of bytes an outcome is done with.
pub open spec fn spec_received_consumed(v: ReceivedView) -> nat {
    match v {
        ReceivedView::Incomplete => 0,
        ReceivedView::Reply { consumed, .. } => consumed,
        ReceivedView::Failed { consumed, .. } => consumed,
    }
}

/// What the bytes received so far hold for a request that awaits its reply.
#[derive(Clone, Debug, PartialEq, Eq)]
pub enum Received {
    Incomplete,
    Reply { reply: Reply, consumed: usize },
    Failed { error: DeviceError, consumed: usize },
}

impl View for Received {
    type V = ReceivedView;

    open spec fn view(&self) -> ReceivedView {
        match self {
            Received::Incomplete => ReceivedView::Incomplete,
            Received::Reply { reply, consumed } => ReceivedView::Reply {
                reply: reply@,
                consumed: *consumed as nat,
            },
            Received::Failed { error, consumed } => ReceivedView::Failed {
                error: *error,
                consumed: *consumed as nat,
            },
        }
    }
}

/// What `s` holds for a request of `kind`. A frame of the other dialect or
/// under another command is an unexpected command. A simple reply that ends
/// before its schema does is incomplete as long as the length it declares
/// has not arrived in full.
pub open spec fn spec_receive(kind: PacketKind, s: Seq<u8>) -> ReceivedView {
    match spec_scan(s) {
        ScanView::Incomplete => ReceivedView::Incomplete,
        ScanView::NoFrameFound { consumed } => ReceivedView::Failed {
            error: DeviceError::NoFrameFound,
            consumed,
        },
        ScanView::CrcError { consumed } => ReceivedView::Failed {
            error: DeviceError::FrameCrcError,
            consumed,
        },
        ScanView::Extended { body, consumed } => if !kind.spec_extended() {
            ReceivedView::Failed {
                error: DeviceError::UnexpectedCommand {
                    got: PacketId {
                        command: EXTENDED_COMMAND,
                        extended: if body.len() > 0 {
                            Some(body[0])
                        } else {
                            None
                        },
                    },
                    expected: kind.spec_id(),
                },
                consumed,
            }
        } else {
            match spec_decode_body(kind, body) {
                Ok(reply) => ReceivedView::Reply { reply, consumed },
                Err(error) => ReceivedView::Failed { error, consumed },
            }
        },
        ScanView::Simple { command, declared, payload, consumed } => if kind.spec_extended()
            || kind.spec_id().command != command {
            ReceivedView::Failed {
                error: DeviceError::UnexpectedCommand {
                    got: PacketId { command, extended: None },
                    expected: kind.spec_id(),
                },
                consumed,
            }
        } else {
            match spec_decode_payload(kind, payload) {
                Ok(reply) => ReceivedView::Reply { reply, consumed },
                Err(error) => if error == DeviceError::Decode(DecodeError::UnexpectedEnd)
                    && payload.len() < declared {
                    ReceivedView::Incomplete
                } else {
                    ReceivedView::Failed { error, consumed }
                },
            }
        },
    }
}

/// Looks in the bytes received so far for the reply to a request of `kind`.
pub fn receive(kind: PacketKind, buf: &[u8]) -> (r: Received)
    ensures
        r@ == spec_receive(kind, buf@),
        spec_received_consumed(r@) <= buf@.len(),
{
    let expected = kind.id();
    match scan(buf) {
        Scan::Incomplete => Received::Incomplete,
        Scan::NoFrameFound { consumed } => Received::Failed {
            error: DeviceError::NoFrameFound,
            consumed,
        },
        Scan::CrcError { consumed } => Received::Failed {
            error: DeviceError::FrameCrcError,
            consumed,
        },
        Scan::Extended { body, consumed } => {
            if expected.extended.is_none() {
                let extended: Option<u8> = if body.len() > 0 {
                    Some(body[0])
                } else {
                    None
                };
                Received::Failed {
                    error: DeviceError::UnexpectedCommand {
                        got: PacketId { command: EXTENDED_COMMAND, extended },
                        expected,
                    },
                    consumed,
                }
            } else {
                match decode_body(kind, body.as_slice()) {
                    Ok(reply) => Received::Reply { reply, consumed },
                    Err(error) => Received::Failed { error, consumed },
                }
            }
        },
        Scan::Simple { command, declared, payload, consumed } => {
            if expected.extended.is_some() || expected.command != command {
                Received::Failed {
                    error: DeviceError::UnexpectedCommand {
                        got: PacketId { command, extended: None },
                        expected,
                    },
                    consumed,
                }
            } else {
                match decode_payload(kind, payload.as_slice()) {
                    Ok(reply) => Received::Reply { reply, consumed },
                    Err(error) => {
                        let short: bool = match error {
                            DeviceError::Decode(DecodeError::UnexpectedEnd) => payload.len() < (
                            declared as usize),
                            _ => false,
                        };
                        if short {
                            Received::Incomplete
                        } else {
                            Received::Failed { error, consumed }
                        }
                    },
                }
            }
        },
    }
}

/// What the counted bytes of an extended frame say as the reply to a
/// command that the catalog does not hold: the payload behind the inner
/// command, which must be `extended`, and the acknowledgement, which must
/// be success.
pub open spec fn spec_decode_raw_body(extended: u8, body: Seq<u8>) -> Result<
    Seq<u8>,
    DeviceError,
> {
    let expected = PacketId { command: EXTENDED_COMMAND, extended: Some(extended) };
    if body.len() < 1 {
        Err(DeviceError::Decode(DecodeError::UnexpectedEnd))
    } else if body[0] != extended {
        Err(
            DeviceError::UnexpectedCommand {
                got: PacketId { command: EXTENDED_COMMAND, extended: Some(body[0]) },
                expected,
            },
        )
    } else if body.len() < 2 {
        Err(DeviceError::Decode(DecodeError::UnexpectedEnd))
    } else if body[1] != ACK_SUCCESS {
        Err(DeviceError::Nack(body[1]))
    } else {
        Ok(body.subrange(2, body.len() as int))
    }
}

/// What `s` holds for an extended command that the catalog does not hold.
/// The payload of the reply is handed on as it is.
pub open spec fn spec_receive_extended(extended: u8, s: Seq<u8>) -> ReceivedView {
    match spec_scan(s) {
        ScanView::Incomplete => ReceivedView::Incomplete,
        ScanView::NoFrameFound { consumed } => ReceivedView::Failed {
            error: DeviceError::NoFrameFound,
            consumed,
        },
        ScanView::CrcError { consumed } => ReceivedView::Failed {
            error: DeviceError::FrameCrcError,
            consumed,
        },
        ScanView::Extended { body, consumed } => match spec_decode_raw_body(extended, body) {
            Ok(payload) => ReceivedView::Reply { reply: ReplyView::Raw(payload), consumed },
            Err(error) => ReceivedView::Failed { error, consumed },
        },
        ScanView::Simple { command, declared, payload, consumed } => ReceivedView::Failed {
            error: DeviceError::UnexpectedCommand {
                got: PacketId { command, extended: None },
                expected: PacketId { command: EXTENDED_COMMAND, extended: Some(extended) },
            },
            consumed,
        },
    }
}

/// Looks in the bytes received so far for the reply to an extended command
/// that the catalog does not hold.
pub fn receive_extended(extended: u8, buf: &[u8]) -> (r: Received)
    ensures
        r@ == spec_receive_extended(extended, buf@),
        spec_received_consumed(r@) <= buf@.len(),
{
    match scan(buf) {
        Scan::Incomplete => Received::Incomplete,
        Scan::NoFrameFound { consumed } => Received::Failed {
            error: DeviceError::NoFrameFound,
            consumed,
        },
        Scan::CrcError { consumed } => Received::Failed {
            error: DeviceError::FrameCrcError,
            consumed,
        },
        Scan::Extended { body, consumed } => {
            let expected = PacketId { command: EXTENDED_COMMAND, extended: Some(extended) };
            if body.len() < 1 {
                Received::Failed {
                    error: DeviceError::Decode(DecodeError::UnexpectedEnd),
                    consumed,
                }
            } else if body[0] != extended {
                Received::Failed {
                    error: DeviceError::UnexpectedCommand {
                        got: PacketId { command: EXTENDED_COMMAND, extended: Some(body[0]) },
                        expected,
                    },
                    consumed,
                }
            } else if body.len() < 2 {
                Received::Failed {
                    error: DeviceError::Decode(DecodeError::UnexpectedEnd),
                    consumed,
                }
            } else if body[1] != ACK_SUCCESS {
                Received::Failed { error: DeviceError::Nack(body[1]), consumed }
            } else {
                Received::Reply {
                    reply: Reply::Raw(copy_range(body.as_slice(), 2, body.len())),
                    consumed,
                }
            }
        },
        Scan::Simple { command, declared, payload, consumed } => Received::Failed {
            error: DeviceError::UnexpectedCommand {
                got: PacketId { command, extended: None },
                expected: PacketId { command: EXTENDED_COMMAND, extended: Some(extended) },
            },
            consumed,
        },
    }
}

/// A command trait that every command implements
pub trait Packet: Sized {
    type Response;

    /// The outer command and the bytes that follow it in the frame, up to
    /// but without a CRC.
    spec fn spec_request(self) -> Result<(u8, Seq<u8>), EncodeError>;

    /// Encodes the client (computer) -> host (vexos) request
    ///
    /// Implementation is specific to each command, but generally it returnes the data in the command's structure
    /// parsed into a `(simple_command: u8, data: Vec<u8>)`
    fn encode_request(self) -> (r: Result<(u8, Vec<u8>), EncodeError>)
        ensures
            match self.spec_request() {
                Ok((command, data)) => r is Ok && r->Ok_0.0 == command && r->Ok_0.1@ == data,
                Err(e) => r == Err::<(u8, Vec<u8>), EncodeError>(e),
            },
    ;

    /// Decodes a host (vexos) -> client (computer) response
    ///
    /// # Arguments
    ///
    /// * `command_id` - The command ID of the recieved command
    /// * `data` - The vector of data that was sent in the command
    fn decode_response(command_id: u8, data: Vec<u8>) -> Result<Self::Response, DeviceError>;
}

/// What the bytes after the command of a reply say: under the extended
/// command, the kind is the one of the inner command they start with;
/// under any other, the kind of that command.
pub open spec fn spec_decode_response(command_id: u8, data: Seq<u8>) -> Result<
    ReplyView,
    DeviceError,
> {
    if command_id == EXTENDED_COMMAND {
        if data.len() < 1 {
            Err(DeviceError::Decode(DecodeError::UnexpectedEnd))
        } else {
            let id = PacketId { command: command_id, extended: Some(data[0]) };
            if exists|k: PacketKind| k.spec_id() == id {
                spec_decode_body(choose|k: PacketKind| k.spec_id() == id, data)
            } else {
                Err(DeviceError::NotSupported)
            }
        }
    } else {
        let id = PacketId { command: command_id, extended: None };
        if exists|k: PacketKind| k.spec_id() == id {
            spec_decode_payload(choose|k: PacketKind| k.spec_id() == id, data)
        } else {
            Err(DeviceError::NotSupported)
        }
    }
}

/// Reads the bytes after the command of a reply.
pub fn decode_any(command_id: u8, data: &[u8]) -> (r: Result<Reply, DeviceError>)
    ensures
        match spec_decode_response(command_id, data@) {
            Ok(v) => r is Ok && r->Ok_0@ == v,
            Err(e) => r == Err::<Reply, DeviceError>(e),
        },
{
    if command_id == EXTENDED_COMMAND {
        if data.len() < 1 {
            return Err(DeviceError::Decode(DecodeError::UnexpectedEnd));
        }
        let id = PacketId { command: command_id, extended: Some(data[0]) };
        match PacketKind::from_id(id) {
            Some(kind) => {
                proof {
                    let chosen = choose|k: PacketKind| k.spec_id() == id;
                    crate::packets::lemma_ids_identify(kind, chosen);
                }
                decode_body(kind, data)
            },
            None => Err(DeviceError::NotSupported),
        }
    } else {
        let id = PacketId { command: command_id, extended: None };
        match PacketKind::from_id(id) {
            Some(kind) => {
                proof {
                    let chosen = choose|k: PacketKind| k.spec_id() == id;
                    crate::packets::lemma_ids_identify(kind, chosen);
                }
                decode_payload(kind, data)
            },
            None => Err(DeviceError::NotSupported),
        }
    }
}

impl Packet for Request {
    type Response = Reply;

    open spec fn spec_request(self) -> Result<(u8, Seq<u8>), EncodeError> {
        match self.spec_kind().spec_id().extended {
            None => Ok((self.spec_kind().spec_id().command, self.spec_payload())),
            Some(extended) => if self.spec_payload().len() <= VAR_U16_MAX {
                Ok(
                    (
                        EXTENDED_COMMAND,
                        seq![extended] + varint::spec_encode(self.spec_payload().len() as u16)
                            + self.spec_payload(),
                    ),
                )
            } else {
                Err(EncodeError::VarShortTooLarge)
            },
        }
    }

    fn encode_request(self) -> (r: Result<(u8, Vec<u8>), EncodeError>) {
        let payload = self.encode_payload();
        let id = self.kind().id();
        match id.extended {
            None => Ok((id.command, payload)),
            Some(extended) => {
                if payload.len() > VAR_U16_MAX as usize {
                    return Err(EncodeError::VarShortTooLarge);
                }
                let size = VarU16::new(payload.len() as u16);
                let size_bytes = match size.encode() {
                    Ok(b) => b,
                    Err(e) => { return Err(e); },
                };
                let mut data: Vec<u8> = Vec::new();
                data.push(extended);
                append(&mut data, size_bytes.as_slice());
                append(&mut data, payload.as_slice());
                Ok((id.command, data))
            },
        }
    }

    fn decode_response(command_id: u8, data: Vec<u8>) -> (r: Result<Reply, DeviceError>)
        ensures
            match spec_decode_response(command_id, data@) {
                Ok(v) => r is Ok && r->Ok_0@ == v,
                Err(e) => r == Err::<Reply, DeviceError>(e),
            },
    {
        decode_any(command_id, data.as_slice())
    }
}

/// The payload that says a reply, as a device writes it.
pub open spec fn spec_reply_payload(reply: ReplyView) -> Seq<u8> {
    match reply {
        ReplyView::SystemVersion(v) => v.spec_encode(),
        ReplyView::InitFileTransfer(m) => crate::packets::file::spec_init_reply(m),
        ReplyView::ReadFile { address, data } => crate::packets::file::spec_read_reply(
            address,
            data,
        ),
        ReplyView::UserFifo { channel, text } => match text {
            Some(s) => seq![channel] + crate::string::spec_encode_var(s),
            None => seq![channel],
        },
        ReplyView::Ack => Seq::empty(),
        ReplyView::Raw(p) => p,
    }
}

/// Whether a reply is one that answers a request of a kind and can be
/// written: flags have a meaning for their product, a string fits its
/// field and holds no zero byte.
pub open spec fn spec_reply_answers(kind: PacketKind, reply: ReplyView) -> bool {
    match reply {
        ReplyView::SystemVersion(v) => {
            &&& kind == PacketKind::GetSystemVersion
            &&& v.product_type.spec_flag_bits() <= 3
            &&& v.product_type is V5Brain ==> v.product_type.spec_flag_bits() == 0
        },
        ReplyView::InitFileTransfer(_) => kind == PacketKind::InitFileTransfer,
        ReplyView::ReadFile { .. } => kind == PacketKind::ReadFile,
        ReplyView::UserFifo { channel, text } => {
            &&& kind == PacketKind::UserFifo
            &&& text matches Some(s) ==> s.len() <= crate::packets::controller::USER_FIFO_MAX
                && crate::string::nul_free(s)
        },
        ReplyView::Ack => kind == PacketKind::ExitFileTransfer || kind == PacketKind::WriteFile
            || kind == PacketKind::LinkFile || kind == PacketKind::SwitchChannel || kind
            == PacketKind::KVWrite,
        ReplyView::Raw(_) => kind == PacketKind::GetDeviceStatus || kind
            == PacketKind::GetFileMetadataByName || kind == PacketKind::KVRead,
    }
}

/// The frame that carries a reply to a request of a kind, as a device
/// writes it.
pub open spec fn spec_reply_frame(kind: PacketKind, reply: ReplyView) -> Seq<u8> {
    match kind.spec_id().extended {
        Some(extended) => crate::protocol::frame::spec_extended_reply(
            extended,
            ACK_SUCCESS,
            spec_reply_payload(reply),
        ),
        None => crate::protocol::frame::spec_simple_reply(
            kind.spec_id().command,
            spec_reply_payload(reply),
        ),
    }
}

/// Every reply of the catalog reads back from its payload as it was
/// written.
pub proof fn lemma_payload_round_trip(kind: PacketKind, reply: ReplyView)
    requires
        spec_reply_answers(kind, reply),
    ensures
        spec_decode_payload(kind, spec_reply_payload(reply)) == Ok::<ReplyView, DeviceError>(reply),
{
    let payload = spec_reply_payload(reply);
    match reply {
        ReplyView::SystemVersion(v) => {
            crate::packets::system::lemma_version_round_trip(v, Seq::empty());
            assert(v.spec_encode() + Seq::<u8>::empty() =~= v.spec_encode());
        },
        ReplyView::InitFileTransfer(m) => {
            crate::wire::lemma_le_value_round_trip(m.max_packet_size, m.file_size, 0);
            crate::wire::lemma_le_value_round_trip(m.max_packet_size, m.crc, 0);
            assert(payload.subrange(0, 2) =~= crate::wire::u16_le(m.max_packet_size));
            assert(payload.subrange(2, 6) =~= crate::wire::u32_le(m.file_size));
            assert(payload.subrange(6, 10) =~= crate::wire::u32_le(m.crc));
        },
        ReplyView::ReadFile { address, data } => {
            crate::wire::lemma_le_value_round_trip(0, address, 0);
            assert(payload.subrange(0, 4) =~= crate::wire::u32_le(address));
            assert(payload.subrange(4, payload.len() as int) =~= data);
        },
        ReplyView::UserFifo { channel, text } => {
            match text {
                Some(s) => {
                    crate::string::lemma_var_round_trip(
                        s,
                        crate::packets::controller::USER_FIFO_MAX as nat,
                        Seq::empty(),
                    );
                    assert(payload.subrange(1, payload.len() as int)
                        =~= crate::string::spec_encode_var(s) + Seq::<u8>::empty());
                },
                None => {},
            }
        },
        ReplyView::Ack => {},
        ReplyView::Raw(_) => {},
    }
}

proof fn lemma_extended_frame_received(
    kind: PacketKind,
    extended: u8,
    payload: Seq<u8>,
    reply: ReplyView,
    garbage: Seq<u8>,
    rest: Seq<u8>,
)
    requires
        kind.spec_id().extended == Some(extended),
        spec_decode_payload(kind, payload) == Ok::<ReplyView, DeviceError>(reply),
        payload.len() + 2 <= VAR_U16_MAX,
        crate::protocol::frame::preamble_free(garbage),
        garbage.len() <= crate::protocol::frame::MAX_GARBAGE,
    ensures
        spec_receive(
            kind,
            garbage + crate::protocol::frame::spec_extended_reply(extended, ACK_SUCCESS, payload)
                + rest,
        ) == (ReceivedView::Reply {
            reply,
            consumed: garbage.len() + crate::protocol::frame::spec_extended_reply(
                extended,
                ACK_SUCCESS,
                payload,
            ).len(),
        }),
{
    crate::protocol::frame::lemma_extended_reply_found(
        garbage,
        extended,
        ACK_SUCCESS,
        payload,
        rest,
    );
    let body = seq![extended, ACK_SUCCESS] + payload;
    assert(body[0] == extended);
    assert(body[1] == ACK_SUCCESS);
    assert(body.subrange(2, body.len() as int) =~= payload);
    assert(spec_decode_body(kind, body) == Ok::<ReplyView, DeviceError>(reply));
}

proof fn lemma_simple_frame_received(
    kind: PacketKind,
    payload: Seq<u8>,
    reply: ReplyView,
    garbage: Seq<u8>,
    rest: Seq<u8>,
)
    requires
        kind.spec_id().extended is None,
        spec_decode_payload(kind, payload) == Ok::<ReplyView, DeviceError>(reply),
        payload.len() <= VAR_U16_MAX,
        crate::protocol::frame::preamble_free(garbage),
        garbage.len() <= crate::protocol::frame::MAX_GARBAGE,
    ensures
        spec_receive(
            kind,
            garbage + crate::protocol::frame::spec_simple_reply(kind.spec_id().command, payload)
                + rest,
        ) == (ReceivedView::Reply {
            reply,
            consumed: garbage.len() + crate::protocol::frame::spec_simple_reply(
                kind.spec_id().command,
                payload,
            ).len(),
        }),
{
    crate::protocol::frame::lemma_simple_reply_found(
        garbage,
        kind.spec_id().command,
        payload,
        rest,
    );
}

/// Every reply of the catalog comes back from its frame as it went in:
/// behind any run of at most `MAX_GARBAGE` bytes that holds no preamble,
/// and whatever follows the frame, the bytes received hold that reply, and
/// the frame is done with to its last byte.
pub proof fn lemma_reply_round_trip(
    kind: PacketKind,
    reply: ReplyView,
    garbage: Seq<u8>,
    rest: Seq<u8>,
)
    requires
        spec_reply_answers(kind, reply),
        spec_reply_payload(reply).len() + 2 <= VAR_U16_MAX,
        crate::protocol::frame::preamble_free(garbage),
        garbage.len() <= crate::protocol::frame::MAX_GARBAGE,
    ensures
        spec_receive(kind, garbage + spec_reply_frame(kind, reply) + rest) == (ReceivedView::Reply {
            reply,
            consumed: garbage.len() + spec_reply_frame(kind, reply).len(),
        }),
{
    let payload = spec_reply_payload(reply);
    lemma_payload_round_trip(kind, reply);
    match kind.spec_id().extended {
        Some(extended) => {
            lemma_extended_frame_received(kind, extended, payload, reply, garbage, rest);
        },
        None => {
            lemma_simple_frame_received(kind, payload, reply, garbage, rest);
        },
    }
}

} // verus!
