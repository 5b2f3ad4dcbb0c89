//! What a file transfer is opened with, and what the device answers.

use vstd::prelude::*;
use crate::timestamp::{seconds_since_epoch, unix_seconds_now, wrap_u32, J2000_EPOCH};
use crate::v5::meta::{FileExitAction, FileInitAction, FileTransferVID};

verus! {

/// The address at which the base image of a program is loaded.
pub const COLD_START: u32 = 0x0380_0000;

/// The filesystem target when reading from the brain
#[derive(Clone, Copy, Debug, PartialEq, Eq, Structural)]
pub enum VexFileTarget {
    DDR,
    FLASH,
    SCREEN,
}

impl VexFileTarget {
    /// The byte that names the target on the wire.
    pub open spec fn spec_code(self) -> u8 {
        match self {
            VexFileTarget::DDR => 0,
            VexFileTarget::FLASH => 1,
            VexFileTarget::SCREEN => 2,
        }
    }

    /// The byte that names the target on the wire.
    pub fn code(self) -> (r: u8)
        ensures
            r == self.spec_code(),
    {
        match self {
            VexFileTarget::DDR => 0,
            VexFileTarget::FLASH => 1,
            VexFileTarget::SCREEN => 2,
        }
    }

    /// The serial flash, which is the flash under another name.
    pub fn qspi() -> (r: Self)
        ensures
            r == VexFileTarget::FLASH,
    {
        VexFileTarget::FLASH
    }
}

/// The mode to open a file on the V5 device with
#[derive(Clone, Copy, Debug, PartialEq, Eq, Structural)]
pub enum VexFileMode {
    /// Open the file for uploading to the brain
    Upload(VexFileTarget, bool),
    /// Open the file for downloading fromt he brain
    Download(VexFileTarget, bool),
}

impl VexFileMode {
    /// The action the session is opened with.
    pub open spec fn spec_action(self) -> FileInitAction {
        match self {
            VexFileMode::Upload(_, _) => FileInitAction::Write,
            VexFileMode::Download(_, _) => FileInitAction::Read,
        }
    }

    /// The storage the session works on.
    pub open spec fn spec_target(self) -> VexFileTarget {
        match self {
            VexFileMode::Upload(t, _) => t,
            VexFileMode::Download(t, _) => t,
        }
    }

    /// Whether an existing file is overwritten.
    pub open spec fn spec_overwrite(self) -> bool {
        match self {
            VexFileMode::Upload(_, o) => o,
            VexFileMode::Download(_, o) => o,
        }
    }

    /// The action, the storage and the overwrite flag of the mode.
    pub fn parts(self) -> (r: (FileInitAction, VexFileTarget, bool))
        ensures
            r == (self.spec_action(), self.spec_target(), self.spec_overwrite()),
    {
        match self {
            VexFileMode::Upload(t, o) => (FileInitAction::Write, t, o),
            VexFileMode::Download(t, o) => (FileInitAction::Read, t, o),
        }
    }
}

/// Represents vex file metadata when initiating
/// a transfer
#[derive(Clone, Copy, Debug, PartialEq, Eq)]
pub struct VexInitialFileMetadata {
    pub function: VexFileMode,
    pub vid: FileTransferVID,
    /// The options of the session. The wire knows one option, overwrite,
    /// in the lowest bit; the other bits are not sent.
    pub options: u8,
    pub length: u32,
    pub addr: u32,
    pub crc: u32,
    pub file_type: [u8; 4],
    pub timestamp: u32,
    pub version: u32,
}

impl VexInitialFileMetadata {
    /// The metadata a transfer starts from when the clock reads
    /// `unix_seconds` seconds since the first instant of 1970.
    pub open spec fn spec_at(unix_seconds: i64) -> VexInitialFileMetadata {
        VexInitialFileMetadata {
            function: VexFileMode::Upload(VexFileTarget::FLASH, true),
            vid: FileTransferVID::User,
            options: 0,
            length: 0,
            addr: COLD_START,
            crc: 0,
            file_type: [0x62u8, 0x69u8, 0x6eu8, 0u8],
            timestamp: wrap_u32(unix_seconds - J2000_EPOCH),
            version: 0,
        }
    }

    /// The metadata a transfer starts from when the clock reads
    /// `unix_seconds`: an overwriting upload of a `bin` file of the user to
    /// the flash, at the cold start address, stamped with the seconds since
    /// the protocol's epoch.
    pub fn at(unix_seconds: i64) -> (r: Self)
        ensures
            r == Self::spec_at(unix_seconds),
    {
        VexInitialFileMetadata {
            function: VexFileMode::Upload(VexFileTarget::FLASH, true),
            vid: FileTransferVID::User,
            options: 0,
            length: 0,
            addr: COLD_START,
            crc: 0,
            file_type: [0x62, 0x69, 0x6e, 0],
            timestamp: seconds_since_epoch(unix_seconds),
            version: 0,
        }
    }
}

impl Default for VexInitialFileMetadata {
    /// The metadata a transfer starts from, stamped by the system clock.
    fn default() -> (r: Self)
        ensures
            exists|unix_seconds: i64| r == Self::spec_at(unix_seconds),
    {
        let now: i64 = unix_seconds_now();
        Self::at(now)
    }
}

/// Represents a flag that tells the brain what to do
/// after a file transfer is complete
#[derive(Clone, Copy, Debug, PartialEq, Eq, Structural)]
pub enum VexFiletransferFinished {
    DoNothing,
    RunProgram,
    ShowRunScreen,
}

impl VexFiletransferFinished {
    /// The exit action that the flag asks for.
    pub open spec fn spec_action(self) -> FileExitAction {
        match self {
            VexFiletransferFinished::DoNothing => FileExitAction::DoNothing,
            VexFiletransferFinished::RunProgram => FileExitAction::RunProgram,
            VexFiletransferFinished::ShowRunScreen => FileExitAction::ShowRunScreen,
        }
    }

    /// The exit action that the flag asks for.
    pub fn action(self) -> (r: FileExitAction)
        ensures
            r == self.spec_action(),
    {
        match self {
            VexFiletransferFinished::DoNothing => FileExitAction::DoNothing,
            VexFiletransferFinished::RunProgram => FileExitAction::RunProgram,
            VexFiletransferFinished::ShowRunScreen => FileExitAction::ShowRunScreen,
        }
    }
}

impl Default for VexFiletransferFinished {
    fn default() -> (r: Self)
        ensures
            r == VexFiletransferFinished::DoNothing,
    {
        VexFiletransferFinished::DoNothing
    }
}

/// Metadata for a file transfer
#[derive(Clone, Copy, Debug, PartialEq, Eq, Structural)]
pub struct VexFiletransferMetadata {
    pub max_packet_size: u16,
    pub file_size: u32,
    pub crc: u32,
}

} // verus!
