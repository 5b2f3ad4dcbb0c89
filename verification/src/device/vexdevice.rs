//! A device on its serial ports, as far as it can be told apart from the
//! ports themselves: what is known of the ports, the bytes of the user
//! stream that have arrived and were not asked for yet, and what each
//! operation sends and makes of the answer.

use vstd::prelude::*;
use crate::commands::chunk_at;
use crate::device::file::{VexFiletransferFinished, VexInitialFileMetadata};
use crate::devices::VexSerialInfo;
use crate::errors::{DecodeError, DeviceError, EncodeError};
use crate::packets::controller::{encode_serial, spec_serial_payload, USER_FIFO_MAX};
use crate::packets::file::{
    spec_named_file_payload, GetFileMetadataByName, InitFields, InitFileTransferPayload, Version,
};
use crate::packets::system::V5DeviceVersion;
use crate::packets::PacketKind;
use crate::protocol::frame::{encode_extended_short, spec_extended_request};
use crate::protocol::Request;
use crate::string::{spec_decode_fixed, FixedLengthString};
use crate::v5::meta::{
    FileExitAction, FileTransferOptions, FileTransferVID, V5ControllerChannel,
};
use crate::wire::{append, copy_range, get_u16, i32_from_bits, u16_from_le, u32_le};
use vstd::slice::slice_subrange;
use vstd::string::is_ascii;

verus! {

/// How long a reply is waited for where no other wait is set, in
/// milliseconds.
pub const DEFAULT_TIMEOUT_MS: u64 = 100;

/// The inner command that raw serial data travel under.
pub const SERIAL_READ_WRITE: u8 = 0x27;

/// The most bytes that are asked for in one raw read.
pub const SERIAL_READ_LIMIT: u8 = 0x40;

/// The option byte that erases every file of the same base name.
pub const ERASE_ALL: u8 = 0x80;

/// This represents a Vex device connected through a serial port.
#[derive(Debug, PartialEq, Eq)]
pub struct VexDevice {
    /// This is the (required) system port that was connected
    /// This will be either a controller or a brain and can be used as a fallback
    /// for generic serial communication.
    pub port: VexSerialInfo,
    /// This is the (optional) user port that was connected
    /// that will be used for generic serial communications.
    pub user_port: Option<VexSerialInfo>,
    /// The wait for a reply, in milliseconds.
    pub timeout_ms: u64,
    /// The interrior serial buffer.
    pub serial_buffer: Vec<u8>,
}

/// Where a write to the user stream goes.
#[derive(Clone, Debug, PartialEq, Eq)]
pub enum SerialWrite {
    /// To the user port, as it is.
    UserPort(Vec<u8>),
    /// To the system port, in these frames.
    SystemPort(Vec<Vec<u8>>),
}

/// The number of frames that `len` bytes of raw serial data take.
pub open spec fn spec_serial_frames(len: nat) -> nat {
    (len + USER_FIFO_MAX - 1) as nat / (USER_FIFO_MAX as nat)
}

/// The frame that carries the part of `data` from `offset` on, at most
/// `USER_FIFO_MAX` bytes of it, to the standard input.
pub open spec fn spec_serial_write_frame(data: Seq<u8>, offset: int) -> Seq<u8> {
    spec_extended_request(
        SERIAL_READ_WRITE,
        spec_serial_payload(1, 0, chunk_at(data, offset, USER_FIFO_MAX as int)),
    )
}

/// The frame that asks for raw serial data.
pub open spec fn spec_serial_read_frame() -> Seq<u8> {
    spec_extended_request(
        SERIAL_READ_WRITE,
        spec_serial_payload(1, SERIAL_READ_LIMIT, Seq::<u8>::empty()),
    )
}

/// The request that opens a session for a file with the given metadata.
pub open spec fn spec_open_fields(name: Seq<u8>, metadata: VexInitialFileMetadata) -> InitFields {
    InitFields {
        operation: metadata.function.spec_action(),
        target: metadata.function.spec_target(),
        vendor: metadata.vid,
        options: if metadata.function.spec_overwrite() || metadata.options % 2 == 1 {
            FileTransferOptions::OVERWRITE
        } else {
            FileTransferOptions::NONE
        },
        write_file_size: metadata.length,
        load_address: metadata.addr,
        write_file_crc: metadata.crc,
        file_extension: spec_decode_fixed(metadata.file_type@, 3)->Some_0,
        timestamp: i32_from_bits(metadata.timestamp),
        version: Version {
            major: u32_le(metadata.version)[0],
            minor: u32_le(metadata.version)[1],
            build: u32_le(metadata.version)[2],
            beta: u32_le(metadata.version)[3],
        },
        file_name: name,
    }
}

/// What a file name comes to as the name field of a request: its bytes, or
/// the reason it is refused for.
pub open spec fn spec_file_name(name: &str) -> Result<Seq<u8>, DeviceError> {
    if !is_ascii(name) {
        Err(DeviceError::Encode(EncodeError::NotAscii))
    } else if name@.len() > 23 {
        Err(DeviceError::Encode(EncodeError::StringTooLong))
    } else {
        Ok(crate::string::ascii_seq(name@))
    }
}

fn name_field(name: &str) -> (r: Result<FixedLengthString<23>, DeviceError>)
    ensures
        match spec_file_name(name) {
            Ok(bytes) => r is Ok && r->Ok_0@ == bytes,
            Err(e) => r is Err && r->Err_0 == e,
        },
{
    match FixedLengthString::<23>::new(name) {
        Ok(n) => Ok(n),
        Err(e) => Err(DeviceError::Encode(e)),
    }
}

fn vendor_or_user(vid: Option<FileTransferVID>) -> (r: FileTransferVID)
    ensures
        r == crate::commands::file::spec_vendor(vid),
{
    match vid {
        Some(v) => v,
        None => FileTransferVID::User,
    }
}

fn option_or_zero(options: Option<u8>) -> (r: u8)
    ensures
        r == spec_option(options),
{
    match options {
        Some(o) => o,
        None => 0,
    }
}

/// The option byte of a request that names none.
pub open spec fn spec_option(options: Option<u8>) -> u8 {
    match options {
        Some(o) => o,
        None => 0,
    }
}

impl VexDevice {
    /// The wait for a reply, in milliseconds.
    pub open spec fn spec_timeout_ms(&self) -> u64 {
        self.timeout_ms
    }

    /// The bytes of the user stream that have arrived and were not asked
    /// for yet.
    pub open spec fn spec_buffer(&self) -> Seq<u8> {
        self.serial_buffer@
    }

    /// Creates a new VexDevice from the given serial ports
    pub fn new(system: VexSerialInfo, user: Option<VexSerialInfo>) -> (r: VexDevice)
        ensures
            r.port == system,
            r.user_port == user,
            r.spec_timeout_ms() == DEFAULT_TIMEOUT_MS,
            r.spec_buffer() == Seq::<u8>::empty(),
    {
        VexDevice {
            port: system,
            user_port: user,
            timeout_ms: DEFAULT_TIMEOUT_MS,
            serial_buffer: Vec::new(),
        }
    }

    /// Sets the timeout on the protocol layer
    pub fn set_timeout(&mut self, timeout_ms: Option<u64>)
        ensures
            final(self).spec_timeout_ms() == match timeout_ms {
                Some(t) => t,
                None => DEFAULT_TIMEOUT_MS,
            },
            final(self).spec_buffer() == old(self).spec_buffer(),
            final(self).port == old(self).port,
            final(self).user_port == old(self).user_port,
    {
        self.timeout_ms = match timeout_ms {
            Some(t) => t,
            None => DEFAULT_TIMEOUT_MS,
        };
    }

    /// The wait for a reply, in milliseconds.
    pub fn timeout_ms(&self) -> (r: u64)
        ensures
            r == self.spec_timeout_ms(),
    {
        self.timeout_ms
    }

    /// The request that asks the device for its version.
    pub fn version_request(&self) -> (r: Request)
        ensures
            r == Request::GetSystemVersion,
    {
        Request::GetSystemVersion
    }

    /// Retrieves the version of the device from the payload of the reply
    /// to the version request.
    pub fn get_device_version(&self, reply: &[u8]) -> (r: Result<V5DeviceVersion, DeviceError>)
        ensures
            r == V5DeviceVersion::spec_decode(reply@),
    {
        V5DeviceVersion::decode(reply)
    }

    /// Switch the controller channel: the channel to ask a device of this
    /// version for, or `None` for a device that has no channels. Without a
    /// channel named, a controller is asked for the pit channel.
    pub fn switch_channel(&self, version: &V5DeviceVersion, channel: Option<V5ControllerChannel>) -> (r:
        Option<V5ControllerChannel>)
        ensures
            r == if version.product_type is V5Controller {
                Some(
                    match channel {
                        Some(c) => c,
                        None => V5ControllerChannel::PIT,
                    },
                )
            } else {
                None
            },
    {
        if version.product_type.is_controller() {
            Some(
                match channel {
                    Some(c) => c,
                    None => V5ControllerChannel::PIT,
                },
            )
        } else {
            None
        }
    }

    /// Acts as a context manager to switch to a different controller channel.
    /// The scope that comes back decides, step by step, what is sent before
    /// and after the work.
    pub fn with_channel(&self, channel: V5ControllerChannel) -> (r: ChannelScope)
        ensures
            r == (ChannelScope { phase: ChannelPhase::Idle, channel, failure: None }),
    {
        ChannelScope { phase: ChannelPhase::Idle, channel, failure: None }
    }

    /// Reads in serial data: takes in the bytes that have arrived and hands
    /// out the first `n_bytes` of what is there, once that many are there.
    /// With `n_bytes` zero all that is there is handed out. Until then the
    /// bytes are kept and `None` comes back.
    pub fn read_serial(&mut self, n_bytes: usize, incoming: &[u8]) -> (r: Option<Vec<u8>>)
        ensures
            ({
                let all = old(self).spec_buffer() + incoming@;
                if n_bytes == 0 {
                    r is Some && r->Some_0@ == all && final(self).spec_buffer() == Seq::<
                        u8,
                    >::empty()
                } else if all.len() >= n_bytes {
                    r is Some && r->Some_0@ == all.subrange(0, n_bytes as int) && final(self).spec_buffer() == all.subrange(n_bytes as int, all.len() as int)
                } else {
                    r is None && final(self).spec_buffer() == all
                }
            }),
            final(self).spec_timeout_ms() == old(self).spec_timeout_ms(),
            final(self).port == old(self).port,
            final(self).user_port == old(self).user_port,
    {
        append(&mut self.serial_buffer, incoming);
        let have: usize = self.serial_buffer.len();
        if n_bytes == 0 {
            Some(self.take(have))
        } else if have >= n_bytes {
            Some(self.take(n_bytes))
        } else {
            None
        }
    }

    /// Takes in the bytes that have arrived and hands out what is there, up
    /// to `want` bytes.
    pub fn read(&mut self, want: usize, incoming: &[u8]) -> (r: Vec<u8>)
        ensures
            ({
                let all = old(self).spec_buffer() + incoming@;
                let n = if all.len() <= want {
                    all.len() as int
                } else {
                    want as int
                };
                r@ == all.subrange(0, n) && final(self).spec_buffer() == all.subrange(
                    n,
                    all.len() as int,
                )
            }),
            final(self).spec_timeout_ms() == old(self).spec_timeout_ms(),
            final(self).port == old(self).port,
            final(self).user_port == old(self).user_port,
    {
        append(&mut self.serial_buffer, incoming);
        let have: usize = self.serial_buffer.len();
        let n: usize = if have <= want {
            have
        } else {
            want
        };
        self.take(n)
    }

    fn take(&mut self, n: usize) -> (r: Vec<u8>)
        requires
            n <= old(self).serial_buffer@.len(),
        ensures
            r@ == old(self).serial_buffer@.subrange(0, n as int),
            final(self).serial_buffer@ == old(self).serial_buffer@.subrange(
                n as int,
                old(self).serial_buffer@.len() as int,
            ),
            final(self).timeout_ms == old(self).timeout_ms,
            final(self).port == old(self).port,
            final(self).user_port == old(self).user_port,
    {
        let head = copy_range(self.serial_buffer.as_slice(), 0, n);
        let rest = copy_range(self.serial_buffer.as_slice(), n, self.serial_buffer.len());
        self.serial_buffer = rest;
        head
    }

    /// Reads serial data from the system port
    /// Because the system port primarily sends commands,
    /// serial data should be sent as a command. This is the frame of that
    /// command.
    pub fn read_serial_raw(&self) -> (r: Vec<u8>)
        ensures
            r@ == spec_serial_read_frame(),
    {
        let data: Vec<u8> = Vec::new();
        let payload = encode_serial(V5ControllerChannel::UPLOAD.code(), SERIAL_READ_LIMIT, data.as_slice());
        encode_extended_short(SERIAL_READ_WRITE, payload.as_slice())
    }

    /// Writes data to the serial port: says how many bytes are written and
    /// where they go. With a user port they go there as they are, without
    /// one they go to the system port in frames.
    pub fn write_serial(&self, data: Vec<u8>) -> (r: (usize, SerialWrite))
        ensures
            r.0 == data@.len(),
            self.user_port is Some ==> (r.1 matches SerialWrite::UserPort(bytes) && bytes@
                == data@),
            self.user_port is None ==> (r.1 matches SerialWrite::SystemPort(frames)
                && frames@.len() == spec_serial_frames(data@.len()) && forall|j: int|
                0 <= j < frames@.len() ==> (#[trigger] frames@[j])@ == spec_serial_write_frame(
                    data@,
                    j * USER_FIFO_MAX,
                )),
    {
        let len: usize = data.len();
        if self.user_port.is_some() {
            (len, SerialWrite::UserPort(data))
        } else {
            (len, SerialWrite::SystemPort(self.write_serial_raw(data.as_slice())))
        }
    }

    /// Writes serial data to the system port
    /// Because the system port primarily sends command,
    /// sserial data should be sent as a command. These are the frames of
    /// the commands, each with at most `USER_FIFO_MAX` bytes of the data.
    pub fn write_serial_raw(&self, data: &[u8]) -> (r: Vec<Vec<u8>>)
        ensures
            r@.len() == spec_serial_frames(data@.len()),
            forall|j: int|
                0 <= j < r@.len() ==> (#[trigger] r@[j])@ == spec_serial_write_frame(
                    data@,
                    j * USER_FIFO_MAX,
                ),
    {
        let max_size: usize = USER_FIFO_MAX;
        let size: usize = data.len();
        let mut frames: Vec<Vec<u8>> = Vec::new();
        let mut i: usize = 0;
        let mut done: bool = size == 0;
        while !done
            invariant
                size == data@.len(),
                max_size == USER_FIFO_MAX,
                !done ==> i < size && i == frames@.len() * USER_FIFO_MAX,
                done ==> frames@.len() == spec_serial_frames(size as nat),
                forall|j: int|
                    0 <= j < frames@.len() ==> (#[trigger] frames@[j])@
                        == spec_serial_write_frame(data@, j * USER_FIFO_MAX),
            decreases
                    size - i + if done {
                        0int
                    } else {
                        1int
                    },
        {
            // Determine how much data to send
            let packet_size: usize = if size - i < max_size {
                size - i
            } else {
                max_size
            };
            // Pack together the data to send
            let payload = encode_serial(1, 0, slice_subrange(data, i, i + packet_size));
            let frame = encode_extended_short(SERIAL_READ_WRITE, payload.as_slice());
            assert(data@.subrange(i as int, i + packet_size) == chunk_at(
                data@,
                i as int,
                USER_FIFO_MAX as int,
            ));
            frames.push(frame);
            if size - i <= max_size {
                done = true;
            } else {
                i = i + max_size;
            }
        }
        frames
    }

    /// Executes a program file on the v5 brain's flash: the payload of the
    /// command that does so.
    pub fn execute_program_file(
        &self,
        file_name: &str,
        vid: Option<FileTransferVID>,
        options: Option<u8>,
    ) -> (r: Result<Vec<u8>, DeviceError>)
        ensures
            match spec_file_name(file_name) {
                Ok(name) => r is Ok && r->Ok_0@ == spec_named_file_payload(
                    crate::commands::file::spec_vendor(vid),
                    spec_option(options),
                    name,
                ),
                Err(e) => r is Err && r->Err_0 == e,
            },
    {
        let name = match name_field(file_name) {
            Ok(n) => n,
            Err(e) => { return Err(e); },
        };
        let payload = GetFileMetadataByName {
            vendor: vendor_or_user(vid),
            option: option_or_zero(options),
            file_name: name,
        };
        Ok(payload.encode())
    }

    /// Open a handle to a file on the v5 brain: the request that opens the
    /// session. Without metadata the session is opened with the default
    /// metadata, stamped by the system clock.
    pub fn open(&self, file_name: &str, file_metadata: Option<VexInitialFileMetadata>) -> (r:
        Result<Request, DeviceError>)
        ensures
            match spec_file_name(file_name) {
                Ok(name) => r is Ok && r->Ok_0.spec_kind() == PacketKind::InitFileTransfer
                    && match file_metadata {
                    Some(m) => r->Ok_0.spec_payload() == crate::packets::file::spec_init_payload(
                        spec_open_fields(name, m),
                    ),
                    None => exists|unix_seconds: i64|
                        r->Ok_0.spec_payload() == crate::packets::file::spec_init_payload(
                            spec_open_fields(
                                name,
                                #[trigger] VexInitialFileMetadata::spec_at(unix_seconds),
                            ),
                        ),
                },
                Err(e) => r is Err && r->Err_0 == e,
            },
    {
        let name = match name_field(file_name) {
            Ok(n) => n,
            Err(e) => { return Err(e); },
        };
        let metadata = match file_metadata {
            Some(m) => m,
            None => VexInitialFileMetadata::default(),
        };
        Ok(Self::open_with(name, metadata))
    }

    fn open_with(name: FixedLengthString<23>, metadata: VexInitialFileMetadata) -> (r: Request)
        ensures
            r.spec_kind() == PacketKind::InitFileTransfer,
            r.spec_payload() == crate::packets::file::spec_init_payload(
                spec_open_fields(name@, metadata),
            ),
    {
        let (operation, target, overwrite) = metadata.function.parts();
        let options = if overwrite || metadata.options % 2 == 1 {
            FileTransferOptions::OVERWRITE
        } else {
            FileTransferOptions::NONE
        };
        let file_extension = FixedLengthString::<3>::decode_field(metadata.file_type.as_slice());
        let timestamp: i32 = if metadata.timestamp < 0x8000_0000 {
            metadata.timestamp as i32
        } else {
            ((metadata.timestamp as i64) - 0x1_0000_0000) as i32
        };
        let version = Version::from_word(metadata.version);
        proof {
            let v = u32_le(metadata.version);
            assert(version.spec_encode()[0] == v[0]);
            assert(version.spec_encode()[1] == v[1]);
            assert(version.spec_encode()[2] == v[2]);
            assert(version.spec_encode()[3] == v[3]);
        }
        let payload = InitFileTransferPayload {
            operation,
            target,
            vendor: metadata.vid,
            options,
            write_file_size: metadata.length,
            load_address: metadata.addr,
            write_file_crc: metadata.crc,
            file_extension,
            timestamp,
            version,
            file_name: name,
        };
        assert(payload@ == spec_open_fields(name@, metadata));
        Request::InitFileTransfer(payload)
    }

    /// Closes the current file transfer: the request that does so. Without
    /// an action named the device is asked to do nothing after it.
    pub fn file_transfer_close(&self, on_exit: Option<VexFiletransferFinished>) -> (r: Request)
        ensures
            r == Request::ExitFileTransfer(
                match on_exit {
                    Some(f) => f.spec_action(),
                    None => FileExitAction::DoNothing,
                },
            ),
    {
        Request::ExitFileTransfer(
            match on_exit {
                Some(f) => f.action(),
                None => FileExitAction::DoNothing,
            },
        )
    }

    /// Gets the metadata of a file from it's index number: the payload of
    /// the command that asks for it.
    pub fn file_metadata_from_index(&self, index: u8, options: Option<u8>) -> (r: Vec<u8>)
        ensures
            r@ == seq![index, spec_option(options)],
    {
        let mut payload: Vec<u8> = Vec::new();
        payload.push(index);
        payload.push(option_or_zero(options));
        assert(payload@ =~= seq![index, spec_option(options)]);
        payload
    }

    /// Gets the metadata of a file from it's name: the request that asks
    /// for it.
    pub fn file_metadata_from_name(
        &self,
        name: &str,
        vid: Option<FileTransferVID>,
        options: Option<u8>,
    ) -> (r: Result<Request, DeviceError>)
        ensures
            match spec_file_name(name) {
                Ok(bytes) => r is Ok && r->Ok_0.spec_kind() == PacketKind::GetFileMetadataByName
                    && r->Ok_0.spec_payload() == spec_named_file_payload(
                    crate::commands::file::spec_vendor(vid),
                    spec_option(options),
                    bytes,
                ),
                Err(e) => r is Err && r->Err_0 == e,
            },
    {
        let file_name = match name_field(name) {
            Ok(n) => n,
            Err(e) => { return Err(e); },
        };
        Ok(
            Request::GetFileMetadataByName(
                GetFileMetadataByName {
                    vendor: vendor_or_user(vid),
                    option: option_or_zero(options),
                    file_name,
                },
            ),
        )
    }

    /// Sets the metadata of a program file: the payload of the command that
    /// does so, which is the metadata as they are written, followed by the
    /// name in its field of twenty-four bytes.
    pub fn set_program_file_metadata(&self, name: &str, metadata: &[u8]) -> (r: Result<
        Vec<u8>,
        DeviceError,
    >)
        ensures
            match spec_file_name(name) {
                Ok(bytes) => r is Ok && r->Ok_0@ == metadata@ + crate::string::spec_encode_fixed(
                    bytes,
                    23,
                ),
                Err(e) => r is Err && r->Err_0 == e,
            },
    {
        let file_name = match name_field(name) {
            Ok(n) => n,
            Err(e) => { return Err(e); },
        };
        let mut payload: Vec<u8> = Vec::new();
        append(&mut payload, metadata);
        let field = file_name.encode();
        append(&mut payload, field.as_slice());
        Ok(payload)
    }

    /// Gets the number of directories on the v5 brain: the payload of the
    /// command that asks for it.
    pub fn get_directory_count(&self, vid: Option<FileTransferVID>, options: Option<u8>) -> (r:
        Vec<u8>)
        ensures
            r@ == seq![crate::commands::file::spec_vendor(vid).spec_code(), spec_option(options)],
    {
        let mut payload: Vec<u8> = Vec::new();
        payload.push(vendor_or_user(vid).code());
        payload.push(option_or_zero(options));
        assert(payload@ =~= seq![
            crate::commands::file::spec_vendor(vid).spec_code(),
            spec_option(options),
        ]);
        payload
    }

    /// The number of directories that the reply to the count command
    /// names: the signed 16-bit number in its first two bytes.
    pub fn directory_count(&self, reply: &[u8]) -> (r: Result<i16, DeviceError>)
        ensures
            reply@.len() < 2 ==> r == Err::<i16, DeviceError>(
                DeviceError::Decode(DecodeError::UnexpectedEnd),
            ),
            reply@.len() >= 2 ==> r is Ok && r->Ok_0 == spec_i16_from_bits(
                u16_from_le(reply@.subrange(0, 2)),
            ),
    {
        match get_u16(reply, 0) {
            Ok(bits) => Ok(
                if bits < 0x8000 {
                    bits as i16
                } else {
                    ((bits as i32) - 0x1_0000) as i16
                },
            ),
            Err(e) => Err(DeviceError::Decode(e)),
        }
    }

    /// Erases a file from V5 flash
    /// If erase all is specified then it will erase all files
    /// matching the base name. This defaults to true.
    /// What comes back is the payload of the command that erases, and the
    /// request that closes the transfer the device has begun by then.
    pub fn delete_file(&self, name: &str, vid: Option<FileTransferVID>, erase_all: Option<bool>) -> (r:
        Result<(Vec<u8>, Request), DeviceError>)
        ensures
            match spec_file_name(name) {
                Ok(bytes) => r is Ok && r->Ok_0.0@ == spec_named_file_payload(
                    crate::commands::file::spec_vendor(vid),
                    if erase_all == Some(false) {
                        0u8
                    } else {
                        ERASE_ALL
                    },
                    bytes,
                ) && r->Ok_0.1 == Request::ExitFileTransfer(FileExitAction::DoNothing),
                Err(e) => r is Err && r->Err_0 == e,
            },
    {
        let erase_all: bool = match erase_all {
            Some(e) => e,
            None => true,
        };
        let options: u8 = if erase_all {
            ERASE_ALL
        } else {
            0x00
        };
        let file_name = match name_field(name) {
            Ok(n) => n,
            Err(e) => { return Err(e); },
        };
        let payload = GetFileMetadataByName {
            vendor: vendor_or_user(vid),
            option: options,
            file_name,
        };
        Ok((payload.encode(), self.file_transfer_close(None)))
    }
}

/// The signed value with the same 16 bits as `v` in two's complement.
pub open spec fn spec_i16_from_bits(v: u16) -> i16 {
    if v < 0x8000 {
        v as i16
    } else {
        (v - 0x1_0000) as i16
    }
}

/// Where a channel scope stands.
#[derive(Clone, Copy, Debug, PartialEq, Eq, Structural)]
pub enum ChannelPhase {
    /// Nothing has been sent yet.
    Idle,
    /// The version is asked for before the switch to the channel.
    QueryBefore,
    /// The switch to the channel awaits its reply.
    SwitchBefore,
    /// The work is under way.
    Work,
    /// The version is asked for before the switch back.
    QueryAfter,
    /// The switch back awaits its reply.
    SwitchAfter,
    /// The scope is left.
    Done,
}

/// A stretch of work on a channel of a controller: where it stands, the
/// channel it is for, and the failure of the work where it has failed.
#[derive(Clone, Copy, Debug, PartialEq, Eq, Structural)]
pub struct ChannelScope {
    pub phase: ChannelPhase,
    pub channel: V5ControllerChannel,
    pub failure: Option<DeviceError>,
}

/// What has happened since the last action of a channel scope.
#[derive(Clone, Copy, Debug, PartialEq, Eq)]
pub enum ChannelEvent {
    /// The caller asks for the first action.
    Start,
    /// The device has said what it is.
    Version(V5DeviceVersion),
    /// The device has switched the channel.
    Switched,
    /// The work is done.
    WorkDone,
    /// The work has failed.
    WorkFailed(DeviceError),
    /// The exchange has failed.
    Error(DeviceError),
}

/// What a channel scope does next.
#[derive(Clone, Copy, Debug, PartialEq, Eq, Structural)]
pub enum ChannelAction {
    /// Ask the device what it is.
    QueryVersion,
    /// Ask the device to switch to the channel.
    Switch(V5ControllerChannel),
    /// Do the work.
    Work,
    /// Leave the scope, with the failure where there was one.
    Finish(Option<DeviceError>),
}

/// The failure a scope is left with: the one of the work where the work has
/// failed, the given one otherwise.
pub open spec fn spec_first_failure(failure: Option<DeviceError>, error: DeviceError) -> Option<
    DeviceError,
> {
    match failure {
        Some(f) => Some(f),
        None => Some(error),
    }
}

/// The step of a channel scope. The device is asked what it is before each
/// switch, and only a controller is asked to switch. The switch back to the
/// pit channel follows the work whether the work has failed or not. An
/// error before the work leaves the scope without the work.
pub open spec fn spec_channel_step(scope: ChannelScope, event: ChannelEvent) -> (
    ChannelScope,
    ChannelAction,
) {
    let at = |phase: ChannelPhase|
        ChannelScope { phase, channel: scope.channel, failure: scope.failure };
    let error = match event {
        ChannelEvent::Error(e) => e,
        ChannelEvent::WorkFailed(e) => e,
        _ => DeviceError::NotSupported,
    };
    match scope.phase {
        ChannelPhase::Idle => match event {
            ChannelEvent::Start => (at(ChannelPhase::QueryBefore), ChannelAction::QueryVersion),
            _ => (at(ChannelPhase::Done), ChannelAction::Finish(Some(error))),
        },
        ChannelPhase::QueryBefore => match event {
            ChannelEvent::Version(v) => if v.product_type is V5Controller {
                (at(ChannelPhase::SwitchBefore), ChannelAction::Switch(scope.channel))
            } else {
                (at(ChannelPhase::Work), ChannelAction::Work)
            },
            _ => (at(ChannelPhase::Done), ChannelAction::Finish(Some(error))),
        },
        ChannelPhase::SwitchBefore => match event {
            ChannelEvent::Switched => (at(ChannelPhase::Work), ChannelAction::Work),
            _ => (at(ChannelPhase::Done), ChannelAction::Finish(Some(error))),
        },
        ChannelPhase::Work => match event {
            ChannelEvent::WorkDone => (at(ChannelPhase::QueryAfter), ChannelAction::QueryVersion),
            _ => (
                ChannelScope {
                    phase: ChannelPhase::QueryAfter,
                    channel: scope.channel,
                    failure: Some(error),
                },
                ChannelAction::QueryVersion,
            ),
        },
        ChannelPhase::QueryAfter => match event {
            ChannelEvent::Version(v) => if v.product_type is V5Controller {
                (at(ChannelPhase::SwitchAfter), ChannelAction::Switch(V5ControllerChannel::PIT))
            } else {
                (at(ChannelPhase::Done), ChannelAction::Finish(scope.failure))
            },
            _ => (
                at(ChannelPhase::Done),
                ChannelAction::Finish(spec_first_failure(scope.failure, error)),
            ),
        },
        ChannelPhase::SwitchAfter => match event {
            ChannelEvent::Switched => (
                at(ChannelPhase::Done),
                ChannelAction::Finish(scope.failure),
            ),
            _ => (
                at(ChannelPhase::Done),
                ChannelAction::Finish(spec_first_failure(scope.failure, error)),
            ),
        },
        ChannelPhase::Done => (scope, ChannelAction::Finish(Some(DeviceError::NotSupported))),
    }
}

impl ChannelScope {
    /// Takes one step of the scope: from the event that has happened to
    /// the action to perform.
    pub fn step(&mut self, event: ChannelEvent) -> (r: ChannelAction)
        ensures
            *final(self) == spec_channel_step(*old(self), event).0,
            r == spec_channel_step(*old(self), event).1,
    {
        let error: DeviceError = match event {
            ChannelEvent::Error(e) => e,
            ChannelEvent::WorkFailed(e) => e,
            _ => DeviceError::NotSupported,
        };
        let first: Option<DeviceError> = match self.failure {
            Some(f) => Some(f),
            None => Some(error),
        };
        match self.phase {
            ChannelPhase::Idle => match event {
                ChannelEvent::Start => {
                    self.phase = ChannelPhase::QueryBefore;
                    ChannelAction::QueryVersion
                },
                _ => {
                    self.phase = ChannelPhase::Done;
                    ChannelAction::Finish(Some(error))
                },
            },
            ChannelPhase::QueryBefore => match event {
                ChannelEvent::Version(v) => {
                    if v.product_type.is_controller() {
                        self.phase = ChannelPhase::SwitchBefore;
                        ChannelAction::Switch(self.channel)
                    } else {
                        self.phase = ChannelPhase::Work;
                        ChannelAction::Work
                    }
                },
                _ => {
                    self.phase = ChannelPhase::Done;
                    ChannelAction::Finish(Some(error))
                },
            },
            ChannelPhase::SwitchBefore => match event {
                ChannelEvent::Switched => {
                    self.phase = ChannelPhase::Work;
                    ChannelAction::Work
                },
                _ => {
                    self.phase = ChannelPhase::Done;
                    ChannelAction::Finish(Some(error))
                },
            },
            ChannelPhase::Work => match event {
                ChannelEvent::WorkDone => {
                    self.phase = ChannelPhase::QueryAfter;
                    ChannelAction::QueryVersion
                },
                _ => {
                    self.phase = ChannelPhase::QueryAfter;
                    self.failure = Some(error);
                    ChannelAction::QueryVersion
                },
            },
            ChannelPhase::QueryAfter => match event {
                ChannelEvent::Version(v) => {
                    if v.product_type.is_controller() {
                        self.phase = ChannelPhase::SwitchAfter;
                        ChannelAction::Switch(V5ControllerChannel::PIT)
                    } else {
                        self.phase = ChannelPhase::Done;
                        ChannelAction::Finish(self.failure)
                    }
                },
                _ => {
                    self.phase = ChannelPhase::Done;
                    ChannelAction::Finish(first)
                },
            },
            ChannelPhase::SwitchAfter => match event {
                ChannelEvent::Switched => {
                    self.phase = ChannelPhase::Done;
                    ChannelAction::Finish(self.failure)
                },
                _ => {
                    self.phase = ChannelPhase::Done;
                    ChannelAction::Finish(first)
                },
            },
            ChannelPhase::Done => ChannelAction::Finish(Some(DeviceError::NotSupported)),
        }
    }
}

/// On a controller the work is framed by the two switches whatever the
/// work comes to: once the switch to the channel is acknowledged the work
/// is done, and after the work, failed or not, the version is asked for,
/// the switch to the pit channel follows, and the scope is left with the
/// failure of the work or with none.
pub proof fn lemma_channel_restored(
    channel: V5ControllerChannel,
    controller: V5DeviceVersion,
    work: ChannelEvent,
)
    requires
        controller.product_type is V5Controller,
        work is WorkDone || work is WorkFailed,
    ensures
        ({
            let idle = ChannelScope { phase: ChannelPhase::Idle, channel, failure: None };
            let s1 = spec_channel_step(idle, ChannelEvent::Start);
            let s2 = spec_channel_step(s1.0, ChannelEvent::Version(controller));
            let s3 = spec_channel_step(s2.0, ChannelEvent::Switched);
            let s4 = spec_channel_step(s3.0, work);
            let s5 = spec_channel_step(s4.0, ChannelEvent::Version(controller));
            let s6 = spec_channel_step(s5.0, ChannelEvent::Switched);
            &&& s1.1 == ChannelAction::QueryVersion
            &&& s2.1 == ChannelAction::Switch(channel)
            &&& s3.1 == ChannelAction::Work
            &&& s4.1 == ChannelAction::QueryVersion
            &&& s5.1 == ChannelAction::Switch(V5ControllerChannel::PIT)
            &&& s6.1 == ChannelAction::Finish(
                match work {
                    ChannelEvent::WorkFailed(e) => Some(e),
                    _ => None,
                },
            )
            &&& s6.0.phase == ChannelPhase::Done
        }),
{
}

} // verus!
