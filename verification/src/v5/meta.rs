//! Contains metadata about the V5

use vstd::prelude::*;
use vstd::std_specs::convert::FromSpecImpl;
use crate::errors::DeviceError;

verus! {

/// Enum that represents the channel
/// for the V5 Controller
#[derive(Clone, Copy, Debug, PartialEq, Eq, Structural)]
pub enum V5ControllerChannel {
    /// Used when wirelessly controlling the
    /// V5 Brain
    PIT,
    /// Used when wirelessly uploading data to the V5
    /// Brain
    UPLOAD,
}

impl V5ControllerChannel {
    /// The byte that names the channel on the wire.
    pub open spec fn spec_code(self) -> u8 {
        match self {
            V5ControllerChannel::PIT => 0x00,
            V5ControllerChannel::UPLOAD => 0x01,
        }
    }

    /// The byte that names the channel on the wire.
    pub fn code(self) -> (r: u8)
        ensures
            r == self.spec_code(),
    {
        match self {
            V5ControllerChannel::PIT => 0x00,
            V5ControllerChannel::UPLOAD => 0x01,
        }
    }
}

/// Configuration flags for the v5 brain
#[derive(Clone, Copy, Debug, PartialEq, Eq, Structural)]
pub struct V5BrainFlags {
    pub bits: u8,
}

impl V5BrainFlags {
    /// Every bit that has a meaning for a brain: none.
    pub const ALL: u8 = 0x00;

    /// The set bits.
    pub open spec fn spec_bits(self) -> u8 {
        self.bits
    }

    /// No flag set.
    pub fn none() -> (r: Self)
        ensures
            r.spec_bits() == 0,
    {
        V5BrainFlags { bits: 0 }
    }

    /// The flags that `bits` stands for, unless a bit without a meaning is
    /// set.
    pub fn from_bits(bits: u8) -> (r: Option<Self>)
        ensures
            bits == 0 ==> r is Some && r->Some_0.spec_bits() == 0,
            bits != 0 ==> r is None,
    {
        if bits == 0 {
            Some(V5BrainFlags { bits })
        } else {
            None
        }
    }

    /// The set bits.
    pub fn bits(self) -> (r: u8)
        ensures
            r == self.spec_bits(),
    {
        self.bits
    }
}

/// Configuration flags for the v5 controller
#[derive(Clone, Copy, Debug, PartialEq, Eq, Structural)]
pub struct V5ControllerFlags {
    pub bits: u8,
}

impl V5ControllerFlags {
    /// The controller is connected by cable.
    pub const CONNECTED_CABLE: u8 = 0x01;

    /// The controller is connected by radio.
    pub const CONNECTED_WIRELESS: u8 = 0x02;

    /// Every bit that has a meaning for a controller.
    pub const ALL: u8 = 0x03;

    /// The set bits.
    pub open spec fn spec_bits(self) -> u8 {
        self.bits
    }

    /// No flag set.
    pub fn none() -> (r: Self)
        ensures
            r.spec_bits() == 0,
    {
        V5ControllerFlags { bits: 0 }
    }

    /// The flags that `bits` stands for, unless a bit without a meaning is
    /// set.
    pub fn from_bits(bits: u8) -> (r: Option<Self>)
        ensures
            bits <= Self::ALL ==> r is Some && r->Some_0.spec_bits() == bits,
            bits > Self::ALL ==> r is None,
    {
        if bits <= Self::ALL {
            Some(V5ControllerFlags { bits })
        } else {
            None
        }
    }

    /// The set bits.
    pub fn bits(self) -> (r: u8)
        ensures
            r == self.spec_bits(),
    {
        self.bits
    }

    /// Whether the cable flag is set.
    pub fn connected_cable(self) -> (r: bool)
        ensures
            r == (self.spec_bits() & Self::CONNECTED_CABLE != 0),
    {
        self.bits & Self::CONNECTED_CABLE != 0
    }

    /// Whether the radio flag is set.
    pub fn connected_wireless(self) -> (r: bool)
        ensures
            r == (self.spec_bits() & Self::CONNECTED_WIRELESS != 0),
    {
        self.bits & Self::CONNECTED_WIRELESS != 0
    }
}

/// Enum that represents a vex product
///
/// # Variants
///
/// * `V5Brain` - Represents a V5 Robot Brain
/// * `V5Controller` - Represents a V5 Robot Controller
#[derive(Clone, Copy, Debug, PartialEq, Eq, Structural)]
pub enum VexProductType {
    V5Brain(V5BrainFlags),
    V5Controller(V5ControllerFlags),
}

/// The byte that names a brain.
pub const PRODUCT_BRAIN: u8 = 0x10;

/// The byte that names a controller.
pub const PRODUCT_CONTROLLER: u8 = 0x11;

impl VexProductType {
    /// The byte that names the product on the wire.
    pub open spec fn spec_code(self) -> u8 {
        match self {
            VexProductType::V5Brain(_) => PRODUCT_BRAIN,
            VexProductType::V5Controller(_) => PRODUCT_CONTROLLER,
        }
    }

    /// The flag bits the product carries.
    pub open spec fn spec_flag_bits(self) -> u8 {
        match self {
            VexProductType::V5Brain(f) => f.spec_bits(),
            VexProductType::V5Controller(f) => f.spec_bits(),
        }
    }

    /// The product that a product byte and a flag byte stand for. Flag bits
    /// without a meaning for the product clear all flags.
    pub open spec fn spec_try_from(product: u8, flags: u8) -> Result<
        VexProductType,
        DeviceError,
    > {
        if product == PRODUCT_BRAIN {
            Ok(VexProductType::V5Brain(V5BrainFlags { bits: 0 }))
        } else if product == PRODUCT_CONTROLLER {
            Ok(
                VexProductType::V5Controller(
                    V5ControllerFlags {
                        bits: if flags <= V5ControllerFlags::ALL {
                            flags
                        } else {
                            0u8
                        },
                    },
                ),
            )
        } else {
            Err(DeviceError::InvalidDevice)
        }
    }

    /// Whether the product is a controller.
    pub fn is_controller(self) -> (r: bool)
        ensures
            r == (self is V5Controller),
    {
        match self {
            VexProductType::V5Controller(_) => true,
            VexProductType::V5Brain(_) => false,
        }
    }

    /// Reads a product from its byte and its flag byte.
    pub fn try_from(value: (u8, u8)) -> (r: Result<VexProductType, DeviceError>)
        ensures
            r == Self::spec_try_from(value.0, value.1),
    {
        if value.0 == PRODUCT_BRAIN {
            let flags = match V5BrainFlags::from_bits(value.1) {
                Some(f) => f,
                None => V5BrainFlags::none(),
            };
            Ok(VexProductType::V5Brain(flags))
        } else if value.0 == PRODUCT_CONTROLLER {
            let flags = match V5ControllerFlags::from_bits(value.1) {
                Some(f) => f,
                None => V5ControllerFlags::none(),
            };
            Ok(VexProductType::V5Controller(flags))
        } else {
            Err(DeviceError::InvalidDevice)
        }
    }
}

impl From<VexProductType> for u8 {
    fn from(product: VexProductType) -> (r: u8) {
        match product {
            VexProductType::V5Brain(_) => PRODUCT_BRAIN,
            VexProductType::V5Controller(_) => PRODUCT_CONTROLLER,
        }
    }
}

impl FromSpecImpl<VexProductType> for u8 {
    open spec fn obeys_from_spec() -> bool {
        true
    }

    open spec fn from_spec(product: VexProductType) -> u8 {
        product.spec_code()
    }
}

// # File Transfer structures
// These structures are used during file transfers between the brain and the host

/// What a file transfer session is opened for, as the wire names it.
#[derive(Clone, Copy, Debug, PartialEq, Eq, Structural)]
pub enum FileInitAction {
    /// The host reads a file from the device.
    Read,
    /// The host writes a file to the device.
    Write,
}

impl FileInitAction {
    /// The byte that names the action on the wire.
    pub open spec fn spec_code(self) -> u8 {
        match self {
            FileInitAction::Read => 1,
            FileInitAction::Write => 2,
        }
    }

    /// The byte that names the action on the wire.
    pub fn code(self) -> (r: u8)
        ensures
            r == self.spec_code(),
    {
        match self {
            FileInitAction::Read => 1,
            FileInitAction::Write => 2,
        }
    }
}

/// The function to be performed during the file transfer
///
/// # Variants
///
/// * `Upload` - use when writing to a file on the brain
/// * `Download` - use when reading from a file on the brain
#[derive(Clone, Copy, Debug, PartialEq, Eq, Structural)]
pub enum FileTransferFunction {
    Upload,
    Download,
}

impl FileTransferFunction {
    /// The action a session is opened with for this function.
    pub open spec fn spec_action(self) -> FileInitAction {
        match self {
            FileTransferFunction::Upload => FileInitAction::Write,
            FileTransferFunction::Download => FileInitAction::Read,
        }
    }

    /// The action a session is opened with for this function.
    pub fn action(self) -> (r: FileInitAction)
        ensures
            r == self.spec_action(),
    {
        match self {
            FileTransferFunction::Upload => FileInitAction::Write,
            FileTransferFunction::Download => FileInitAction::Read,
        }
    }
}

/// The target storage device of a file transfer
///
/// # Variants
///
/// * `Flash` - The flash memory on the robot brain where most program files are stored
/// * `Screen` - The memory accessed when taking a screen capture from the brain.
#[derive(Clone, Copy, Debug, PartialEq, Eq, Structural)]
pub enum FileTransferTarget {
    Flash,
    Screen,
}

impl FileTransferTarget {
    /// The byte that names the target on the wire.
    pub open spec fn spec_code(self) -> u8 {
        match self {
            FileTransferTarget::Flash => 0x01,
            FileTransferTarget::Screen => 0x02,
        }
    }

    /// The byte that names the target on the wire.
    pub fn code(self) -> (r: u8)
        ensures
            r == self.spec_code(),
    {
        match self {
            FileTransferTarget::Flash => 0x01,
            FileTransferTarget::Screen => 0x02,
        }
    }
}

/// The VID of a file transfer
#[derive(Clone, Copy, Debug, PartialEq, Eq, Structural)]
pub enum FileTransferVID {
    User,
    System,
    RMS,
    PROS,
    MW,
}

impl FileTransferVID {
    /// The byte that names the vendor on the wire.
    pub open spec fn spec_code(self) -> u8 {
        match self {
            FileTransferVID::User => 1,
            FileTransferVID::System => 15,
            FileTransferVID::RMS => 16,
            FileTransferVID::PROS => 24,
            FileTransferVID::MW => 32,
        }
    }

    /// The byte that names the vendor on the wire.
    pub fn code(self) -> (r: u8)
        ensures
            r == self.spec_code(),
    {
        match self {
            FileTransferVID::User => 1,
            FileTransferVID::System => 15,
            FileTransferVID::RMS => 16,
            FileTransferVID::PROS => 24,
            FileTransferVID::MW => 32,
        }
    }

    /// The vendor a byte names, where it names one.
    pub fn from_code(code: u8) -> (r: Option<Self>)
        ensures
            r matches Some(v) ==> v.spec_code() == code,
            r is None ==> forall|v: FileTransferVID| v.spec_code() != code,
    {
        match code {
            1 => Some(FileTransferVID::User),
            15 => Some(FileTransferVID::System),
            16 => Some(FileTransferVID::RMS),
            24 => Some(FileTransferVID::PROS),
            32 => Some(FileTransferVID::MW),
            _ => None,
        }
    }
}

impl Default for FileTransferVID {
    fn default() -> (r: Self)
        ensures
            r == FileTransferVID::User,
    {
        FileTransferVID::User
    }
}

/// Options in a file transfer
#[derive(Clone, Copy, Debug, PartialEq, Eq, Structural)]
pub enum FileTransferOptions {
    NONE,
    /// Set to overwite the file
    OVERWRITE,
}

impl FileTransferOptions {
    /// The byte that carries the options on the wire.
    pub open spec fn spec_bits(self) -> u8 {
        match self {
            FileTransferOptions::NONE => 0x0,
            FileTransferOptions::OVERWRITE => 0x1,
        }
    }

    /// The byte that carries the options on the wire.
    pub fn bits(self) -> (r: u8)
        ensures
            r == self.spec_bits(),
    {
        match self {
            FileTransferOptions::NONE => 0x0,
            FileTransferOptions::OVERWRITE => 0x1,
        }
    }
}

/// What the device does once a file transfer is closed.
#[derive(Clone, Copy, Debug, PartialEq, Eq, Structural)]
pub enum FileExitAction {
    DoNothing,
    RunProgram,
    Halt,
    ShowRunScreen,
}

impl FileExitAction {
    /// The byte that names the action on the wire.
    pub open spec fn spec_code(self) -> u8 {
        match self {
            FileExitAction::DoNothing => 0,
            FileExitAction::RunProgram => 1,
            FileExitAction::Halt => 2,
            FileExitAction::ShowRunScreen => 3,
        }
    }

    /// The byte that names the action on the wire.
    pub fn code(self) -> (r: u8)
        ensures
            r == self.spec_code(),
    {
        match self {
            FileExitAction::DoNothing => 0,
            FileExitAction::RunProgram => 1,
            FileExitAction::Halt => 2,
            FileExitAction::ShowRunScreen => 3,
        }
    }
}

/// The File type of a file
///
/// * `Bin` - Binary files, generally programs
/// * `Ini` - Ini files for program metadata and configuration
/// * `Other` - Any other file type, including custom user types
#[derive(Clone, Copy, Debug, PartialEq, Eq)]
pub enum FileTransferType {
    Bin,
    Ini,
    Other([u8; 3]),
}

impl FileTransferType {
    /// The four bytes of the extension field: three characters and a zero.
    pub open spec fn spec_bytes(self) -> Seq<u8> {
        match self {
            FileTransferType::Bin => seq![0x62u8, 0x69u8, 0x6eu8, 0u8],
            FileTransferType::Ini => seq![0x69u8, 0x6eu8, 0x69u8, 0u8],
            FileTransferType::Other(t) => seq![t@[0], t@[1], t@[2], 0u8],
        }
    }

    pub fn to_bytes(self) -> (r: [u8; 4])
        ensures
            r@ == self.spec_bytes(),
    {
        let r: [u8; 4] = match self {
            FileTransferType::Bin => [0x62, 0x69, 0x6e, 0],
            FileTransferType::Ini => [0x69, 0x6e, 0x69, 0],
            FileTransferType::Other(t) => [t[0], t[1], t[2], 0],
        };
        assert(r@ =~= self.spec_bytes());
        r
    }
}

} // verus!
