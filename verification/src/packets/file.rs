//! The packets of a file transfer session.

use vstd::prelude::*;
use crate::device::file::{VexFileTarget, VexFiletransferMetadata};
use crate::errors::DecodeError;
use crate::string::{spec_encode_fixed, FixedLengthString};
use crate::v5::meta::{FileExitAction, FileInitAction, FileTransferOptions, FileTransferVID};
use crate::wire::{
    append, copy_range, get_u16, get_u32, i32_bits, put_i32, put_u16, put_u32, u16_from_le,
    u16_le, u32_from_le, u32_le,
};

verus! {

/// The four numbers of a file's version.
#[derive(Clone, Copy, Debug, PartialEq, Eq, Structural)]
pub struct Version {
    pub major: u8,
    pub minor: u8,
    pub build: u8,
    pub beta: u8,
}

impl Version {
    /// The four bytes of the version.
    pub open spec fn spec_encode(self) -> Seq<u8> {
        seq![self.major, self.minor, self.build, self.beta]
    }

    /// The version whose four numbers are the bytes of `word`, low byte
    /// first.
    pub fn from_word(word: u32) -> (r: Version)
        ensures
            r.spec_encode() == u32_le(word),
    {
        let r = Version {
            major: (word % 0x100) as u8,
            minor: ((word / 0x100) % 0x100) as u8,
            build: ((word / 0x1_0000) % 0x100) as u8,
            beta: (word / 0x100_0000) as u8,
        };
        assert(r.spec_encode() =~= u32_le(word));
        r
    }
}

/// The length of the payload that opens a session.
pub const INIT_PAYLOAD_LEN: usize = 52;

/// The length of the payload that answers the opening of a session.
pub const INIT_REPLY_LEN: usize = 10;

/// What a session is opened with.
#[derive(Clone, Debug, PartialEq, Eq)]
pub struct InitFileTransferPayload {
    pub operation: FileInitAction,
    pub target: VexFileTarget,
    pub vendor: FileTransferVID,
    pub options: FileTransferOptions,
    pub write_file_size: u32,
    pub load_address: u32,
    pub write_file_crc: u32,
    pub file_extension: FixedLengthString<3>,
    pub timestamp: i32,
    pub version: Version,
    pub file_name: FixedLengthString<23>,
}

/// The fields of an `InitFileTransferPayload` as plain values.
pub struct InitFields {
    pub operation: FileInitAction,
    pub target: VexFileTarget,
    pub vendor: FileTransferVID,
    pub options: FileTransferOptions,
    pub write_file_size: u32,
    pub load_address: u32,
    pub write_file_crc: u32,
    pub file_extension: Seq<u8>,
    pub timestamp: i32,
    pub version: Version,
    pub file_name: Seq<u8>,
}

impl View for InitFileTransferPayload {
    type V = InitFields;

    open spec fn view(&self) -> InitFields {
        InitFields {
            operation: self.operation,
            target: self.target,
            vendor: self.vendor,
            options: self.options,
            write_file_size: self.write_file_size,
            load_address: self.load_address,
            write_file_crc: self.write_file_crc,
            file_extension: self.file_extension@,
            timestamp: self.timestamp,
            version: self.version,
            file_name: self.file_name@,
        }
    }
}

/// The payload that opens a session: four single bytes, three 32-bit
/// numbers, the extension in a field of four bytes, the timestamp, the
/// version and the name in a field of twenty-four bytes.
pub open spec fn spec_init_payload(f: InitFields) -> Seq<u8> {
    seq![
        f.operation.spec_code(),
        f.target.spec_code(),
        f.vendor.spec_code(),
        f.options.spec_bits(),
    ] + u32_le(f.write_file_size) + u32_le(f.load_address) + u32_le(f.write_file_crc)
        + spec_encode_fixed(f.file_extension, 3) + u32_le(i32_bits(f.timestamp))
        + f.version.spec_encode() + spec_encode_fixed(f.file_name, 23)
}

impl InitFileTransferPayload {
    /// The bytes of the payload.
    pub fn encode(&self) -> (r: Vec<u8>)
        ensures
            r@ == spec_init_payload(self@),
            r@.len() == INIT_PAYLOAD_LEN,
    {
        let mut out: Vec<u8> = Vec::new();
        out.push(self.operation.code());
        out.push(self.target.code());
        out.push(self.vendor.code());
        out.push(self.options.bits());
        assert(out@ =~= seq![
            self.operation.spec_code(),
            self.target.spec_code(),
            self.vendor.spec_code(),
            self.options.spec_bits(),
        ]);
        put_u32(&mut out, self.write_file_size);
        put_u32(&mut out, self.load_address);
        put_u32(&mut out, self.write_file_crc);
        let extension = self.file_extension.encode();
        append(&mut out, extension.as_slice());
        put_i32(&mut out, self.timestamp);
        out.push(self.version.major);
        out.push(self.version.minor);
        out.push(self.version.build);
        out.push(self.version.beta);
        let ghost before_name = out@;
        assert(before_name =~= seq![
            self.operation.spec_code(),
            self.target.spec_code(),
            self.vendor.spec_code(),
            self.options.spec_bits(),
        ] + u32_le(self.write_file_size) + u32_le(self.load_address) + u32_le(
            self.write_file_crc,
        ) + spec_encode_fixed(self.file_extension@, 3) + u32_le(i32_bits(self.timestamp))
            + self.version.spec_encode());
        let name = self.file_name.encode();
        append(&mut out, name.as_slice());
        out
    }
}

/// The payload that answers the opening of a session: the largest chunk the
/// device takes, then the size and the CRC of the file.
pub open spec fn spec_init_reply(m: VexFiletransferMetadata) -> Seq<u8> {
    u16_le(m.max_packet_size) + u32_le(m.file_size) + u32_le(m.crc)
}

/// What the head of `payload` says as the answer to the opening of a
/// session, or `None` where it is too short.
pub open spec fn spec_decode_init_reply(payload: Seq<u8>) -> Option<VexFiletransferMetadata> {
    if payload.len() < INIT_REPLY_LEN {
        None
    } else {
        Some(
            VexFiletransferMetadata {
                max_packet_size: u16_from_le(payload.subrange(0, 2)),
                file_size: u32_from_le(payload.subrange(2, 6)),
                crc: u32_from_le(payload.subrange(6, 10)),
            },
        )
    }
}

/// Reads the answer to the opening of a session.
pub fn decode_init_reply(payload: &[u8]) -> (r: Result<VexFiletransferMetadata, DecodeError>)
    ensures
        match spec_decode_init_reply(payload@) {
            Some(m) => r == Ok::<VexFiletransferMetadata, DecodeError>(m),
            None => r == Err::<VexFiletransferMetadata, DecodeError>(DecodeError::UnexpectedEnd),
        },
{
    if payload.len() < INIT_REPLY_LEN {
        return Err(DecodeError::UnexpectedEnd);
    }
    let max_packet_size: u16 = match get_u16(payload, 0) {
        Ok(v) => v,
        Err(e) => { return Err(e); },
    };
    let file_size: u32 = match get_u32(payload, 2) {
        Ok(v) => v,
        Err(e) => { return Err(e); },
    };
    let crc: u32 = match get_u32(payload, 6) {
        Ok(v) => v,
        Err(e) => { return Err(e); },
    };
    Ok(VexFiletransferMetadata { max_packet_size, file_size, crc })
}

/// A chunk of a file and the address it goes to.
#[derive(Clone, Debug, PartialEq, Eq)]
pub struct WriteFilePayload {
    pub address: u32,
    pub chunk_data: Vec<u8>,
}

/// The payload that writes `data` at `address`.
pub open spec fn spec_write_payload(address: u32, data: Seq<u8>) -> Seq<u8> {
    u32_le(address) + data
}

impl WriteFilePayload {
    /// The bytes of the payload.
    pub fn encode(&self) -> (r: Vec<u8>)
        ensures
            r@ == spec_write_payload(self.address, self.chunk_data@),
    {
        let mut out: Vec<u8> = Vec::new();
        put_u32(&mut out, self.address);
        append(&mut out, self.chunk_data.as_slice());
        out
    }
}

/// The address and the size of a chunk to read.
#[derive(Clone, Copy, Debug, PartialEq, Eq, Structural)]
pub struct ReadFilePayload {
    pub address: u32,
    pub size: u16,
}

/// The payload that asks for `size` bytes from `address`.
pub open spec fn spec_read_payload(address: u32, size: u16) -> Seq<u8> {
    u32_le(address) + u16_le(size)
}

impl ReadFilePayload {
    /// The bytes of the payload.
    pub fn encode(&self) -> (r: Vec<u8>)
        ensures
            r@ == spec_read_payload(self.address, self.size),
    {
        let mut out: Vec<u8> = Vec::new();
        put_u32(&mut out, self.address);
        put_u16(&mut out, self.size);
        out
    }
}

/// A chunk that was read, and the address it was read from.
#[derive(Clone, Debug, PartialEq, Eq)]
pub struct ReadFileReply {
    pub address: u32,
    pub data: Vec<u8>,
}

/// The payload that hands out `data` read from `address`.
pub open spec fn spec_read_reply(address: u32, data: Seq<u8>) -> Seq<u8> {
    u32_le(address) + data
}

/// The address and the chunk that `payload` hands out, or `None` where it
/// is too short to hold an address.
pub open spec fn spec_decode_read_reply(payload: Seq<u8>) -> Option<(u32, Seq<u8>)> {
    if payload.len() < 4 {
        None
    } else {
        Some((u32_from_le(payload.subrange(0, 4)), payload.subrange(4, payload.len() as int)))
    }
}

/// Reads the answer to a read request.
pub fn decode_read_reply(payload: &[u8]) -> (r: Result<ReadFileReply, DecodeError>)
    ensures
        match spec_decode_read_reply(payload@) {
            Some((address, data)) => r is Ok && r->Ok_0.address == address && r->Ok_0.data@
                == data,
            None => r == Err::<ReadFileReply, DecodeError>(DecodeError::UnexpectedEnd),
        },
{
    let address: u32 = match get_u32(payload, 0) {
        Ok(v) => v,
        Err(e) => { return Err(e); },
    };
    let data = copy_range(payload, 4, payload.len());
    Ok(ReadFileReply { address, data })
}

/// The file that the file of this session needs beside it.
#[derive(Clone, Debug, PartialEq, Eq)]
pub struct LinkFilePayload {
    pub vendor: FileTransferVID,
    pub option: u8,
    pub required_file: FixedLengthString<23>,
}

/// The payload that names a file of a vendor: the vendor, an option byte and
/// the name in a field of twenty-four bytes. Linking a file and asking for a
/// file's metadata both use it.
pub open spec fn spec_named_file_payload(
    vendor: FileTransferVID,
    option: u8,
    name: Seq<u8>,
) -> Seq<u8> {
    seq![vendor.spec_code(), option] + spec_encode_fixed(name, 23)
}

fn encode_named_file(vendor: FileTransferVID, option: u8, name: &FixedLengthString<23>) -> (r:
    Vec<u8>)
    ensures
        r@ == spec_named_file_payload(vendor, option, name@),
        r@.len() == 26,
{
    let mut out: Vec<u8> = Vec::new();
    out.push(vendor.code());
    out.push(option);
    assert(out@ =~= seq![vendor.spec_code(), option]);
    let field = name.encode();
    append(&mut out, field.as_slice());
    out
}

impl LinkFilePayload {
    /// The bytes of the payload.
    pub fn encode(&self) -> (r: Vec<u8>)
        ensures
            r@ == spec_named_file_payload(self.vendor, self.option, self.required_file@),
            r@.len() == 26,
    {
        encode_named_file(self.vendor, self.option, &self.required_file)
    }
}

/// The file whose metadata is asked for.
#[derive(Clone, Debug, PartialEq, Eq)]
pub struct GetFileMetadataByName {
    pub vendor: FileTransferVID,
    pub option: u8,
    pub file_name: FixedLengthString<23>,
}

impl GetFileMetadataByName {
    /// The bytes of the payload.
    pub fn encode(&self) -> (r: Vec<u8>)
        ensures
            r@ == spec_named_file_payload(self.vendor, self.option, self.file_name@),
            r@.len() == 26,
    {
        encode_named_file(self.vendor, self.option, &self.file_name)
    }
}

/// The payload that closes a session.
pub open spec fn spec_exit_payload(action: FileExitAction) -> Seq<u8> {
    seq![action.spec_code()]
}

/// The bytes of the payload that closes a session.
pub fn encode_exit(action: FileExitAction) -> (r: Vec<u8>)
    ensures
        r@ == spec_exit_payload(action),
{
    let mut out: Vec<u8> = Vec::new();
    out.push(action.code());
    out
}

/// The payload that opens a session is 52 bytes long, and every field
/// reads back from its place in it: the four single bytes, the three
/// numbers, the extension from the field at 16, the timestamp at 20, the
/// version at 24 and the name from the field at 28. A string reads back as
/// it was where it holds no zero byte.
pub proof fn lemma_init_payload_layout(f: InitFields)
    requires
        f.file_extension.len() <= 3,
        f.file_name.len() <= 23,
    ensures
        ({
            let p = spec_init_payload(f);
            &&& p.len() == INIT_PAYLOAD_LEN
            &&& p[0] == f.operation.spec_code()
            &&& p[1] == f.target.spec_code()
            &&& p[2] == f.vendor.spec_code()
            &&& p[3] == f.options.spec_bits()
            &&& u32_from_le(p.subrange(4, 8)) == f.write_file_size
            &&& u32_from_le(p.subrange(8, 12)) == f.load_address
            &&& u32_from_le(p.subrange(12, 16)) == f.write_file_crc
            &&& crate::string::nul_free(f.file_extension) ==> crate::string::spec_decode_fixed(
                p.subrange(16, 20),
                3,
            ) == Some(f.file_extension)
            &&& crate::wire::i32_from_bits(u32_from_le(p.subrange(20, 24))) == f.timestamp
            &&& p.subrange(24, 28) == f.version.spec_encode()
            &&& crate::string::nul_free(f.file_name) ==> crate::string::spec_decode_fixed(
                p.subrange(28, 52),
                23,
            ) == Some(f.file_name)
        }),
{
    let p = spec_init_payload(f);
    let extension = spec_encode_fixed(f.file_extension, 3);
    let name = spec_encode_fixed(f.file_name, 23);
    assert(extension.len() == 4);
    assert(name.len() == 24);
    crate::wire::lemma_le_value_round_trip(0, f.write_file_size, f.timestamp);
    crate::wire::lemma_le_value_round_trip(0, f.load_address, 0);
    crate::wire::lemma_le_value_round_trip(0, f.write_file_crc, 0);
    crate::wire::lemma_le_value_round_trip(0, i32_bits(f.timestamp), 0);
    assert(p.subrange(4, 8) =~= u32_le(f.write_file_size));
    assert(p.subrange(8, 12) =~= u32_le(f.load_address));
    assert(p.subrange(12, 16) =~= u32_le(f.write_file_crc));
    assert(p.subrange(16, 20) =~= extension);
    assert(p.subrange(20, 24) =~= u32_le(i32_bits(f.timestamp)));
    assert(p.subrange(24, 28) =~= f.version.spec_encode());
    assert(p.subrange(28, 52) =~= name);
    if crate::string::nul_free(f.file_extension) {
        crate::string::lemma_fixed_round_trip(f.file_extension, 3, Seq::empty());
        assert(extension + Seq::<u8>::empty() =~= extension);
    }
    if crate::string::nul_free(f.file_name) {
        crate::string::lemma_fixed_round_trip(f.file_name, 23, Seq::empty());
        assert(name + Seq::<u8>::empty() =~= name);
    }
}

} // verus!
