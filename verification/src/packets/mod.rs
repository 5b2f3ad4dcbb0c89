//! The packet catalog: every kind of packet the driver knows, the two
//! identifiers each kind travels under, and the schema of each payload.

pub mod controller;
pub mod file;
pub mod system;

use vstd::prelude::*;
use crate::errors::PacketId;

verus! {

/// The outer command that every extended packet travels under.
pub const EXTENDED_COMMAND: u8 = 0x56;

/// The acknowledgement byte of a reply that succeeded.
pub const ACK_SUCCESS: u8 = 0x76;

/// The kinds of packet in the catalog. A request and its reply are of one
/// kind.
#[derive(Clone, Copy, Debug, PartialEq, Eq, Structural)]
pub enum PacketKind {
    GetSystemVersion,
    GetDeviceStatus,
    InitFileTransfer,
    ExitFileTransfer,
    WriteFile,
    ReadFile,
    LinkFile,
    GetFileMetadataByName,
    SwitchChannel,
    UserFifo,
    KVRead,
    KVWrite,
}

impl PacketKind {
    /// The identifiers the kind travels under.
    pub open spec fn spec_id(self) -> PacketId {
        match self {
            PacketKind::GetSystemVersion => PacketId { command: 0xA4, extended: None },
            PacketKind::GetDeviceStatus => PacketId {
                command: EXTENDED_COMMAND,
                extended: Some(0x21u8),
            },
            PacketKind::InitFileTransfer => PacketId {
                command: EXTENDED_COMMAND,
                extended: Some(0x11u8),
            },
            PacketKind::ExitFileTransfer => PacketId {
                command: EXTENDED_COMMAND,
                extended: Some(0x12u8),
            },
            PacketKind::WriteFile => PacketId { command: EXTENDED_COMMAND, extended: Some(0x13u8) },
            PacketKind::ReadFile => PacketId { command: EXTENDED_COMMAND, extended: Some(0x14u8) },
            PacketKind::LinkFile => PacketId { command: EXTENDED_COMMAND, extended: Some(0x15u8) },
            PacketKind::GetFileMetadataByName => PacketId {
                command: EXTENDED_COMMAND,
                extended: Some(0x19u8),
            },
            PacketKind::SwitchChannel => PacketId {
                command: EXTENDED_COMMAND,
                extended: Some(0x10u8),
            },
            PacketKind::UserFifo => PacketId { command: EXTENDED_COMMAND, extended: Some(0x27u8) },
            PacketKind::KVRead => PacketId { command: EXTENDED_COMMAND, extended: Some(0x2Eu8) },
            PacketKind::KVWrite => PacketId { command: EXTENDED_COMMAND, extended: Some(0x2Fu8) },
        }
    }

    /// Whether the kind travels in the extended dialect.
    pub open spec fn spec_extended(self) -> bool {
        self.spec_id().extended is Some
    }

    /// The identifiers the kind travels under.
    pub fn id(self) -> (r: PacketId)
        ensures
            r == self.spec_id(),
    {
        match self {
            PacketKind::GetSystemVersion => PacketId { command: 0xA4, extended: None },
            PacketKind::GetDeviceStatus => PacketId {
                command: EXTENDED_COMMAND,
                extended: Some(0x21),
            },
            PacketKind::InitFileTransfer => PacketId {
                command: EXTENDED_COMMAND,
                extended: Some(0x11),
            },
            PacketKind::ExitFileTransfer => PacketId {
                command: EXTENDED_COMMAND,
                extended: Some(0x12),
            },
            PacketKind::WriteFile => PacketId { command: EXTENDED_COMMAND, extended: Some(0x13) },
            PacketKind::ReadFile => PacketId { command: EXTENDED_COMMAND, extended: Some(0x14) },
            PacketKind::LinkFile => PacketId { command: EXTENDED_COMMAND, extended: Some(0x15) },
            PacketKind::GetFileMetadataByName => PacketId {
                command: EXTENDED_COMMAND,
                extended: Some(0x19),
            },
            PacketKind::SwitchChannel => PacketId {
                command: EXTENDED_COMMAND,
                extended: Some(0x10),
            },
            PacketKind::UserFifo => PacketId { command: EXTENDED_COMMAND, extended: Some(0x27) },
            PacketKind::KVRead => PacketId { command: EXTENDED_COMMAND, extended: Some(0x2E) },
            PacketKind::KVWrite => PacketId { command: EXTENDED_COMMAND, extended: Some(0x2F) },
        }
    }

    /// The kind that travels under `id`, where the catalog holds one.
    pub fn from_id(id: PacketId) -> (r: Option<PacketKind>)
        ensures
            r matches Some(k) ==> k.spec_id() == id,
            r is None ==> forall|k: PacketKind| k.spec_id() != id,
    {
        match id.extended {
            None => {
                if id.command == 0xA4 {
                    Some(PacketKind::GetSystemVersion)
                } else {
                    None
                }
            },
            Some(ext) => {
                if id.command != EXTENDED_COMMAND {
                    None
                } else {
                    match ext {
                        0x21 => Some(PacketKind::GetDeviceStatus),
                        0x11 => Some(PacketKind::InitFileTransfer),
                        0x12 => Some(PacketKind::ExitFileTransfer),
                        0x13 => Some(PacketKind::WriteFile),
                        0x14 => Some(PacketKind::ReadFile),
                        0x15 => Some(PacketKind::LinkFile),
                        0x19 => Some(PacketKind::GetFileMetadataByName),
                        0x10 => Some(PacketKind::SwitchChannel),
                        0x27 => Some(PacketKind::UserFifo),
                        0x2E => Some(PacketKind::KVRead),
                        0x2F => Some(PacketKind::KVWrite),
                        _ => None,
                    }
                }
            },
        }
    }
}

/// No two kinds of the catalog travel under the same identifiers, and the
/// kinds of the extended dialect are those under the extended command.
pub proof fn lemma_ids_identify(a: PacketKind, b: PacketKind)
    ensures
        a.spec_id() == b.spec_id() ==> a == b,
        a.spec_extended() <==> a.spec_id().command == EXTENDED_COMMAND,
{
}

} // verus!
