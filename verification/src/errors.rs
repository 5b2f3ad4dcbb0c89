//! Error kinds shared by every layer of the driver.

use vstd::prelude::*;

verus! {

/// A value does not fit the wire schema it is written into.
#[derive(Clone, Copy, Debug, PartialEq, Eq, Structural)]
pub enum EncodeError {
    /// A string is longer than the capacity of its field.
    StringTooLong,
    /// A string holds a character outside ASCII.
    NotAscii,
    /// A count does not fit the variable-width 15-bit integer.
    VarShortTooLarge,
    /// A size or an address does not fit its 32-bit field.
    ValueTooLarge,
}

/// Received bytes do not match the schema they are read with.
#[derive(Clone, Copy, Debug, PartialEq, Eq, Structural)]
pub enum DecodeError {
    /// Fewer bytes remain than the schema needs.
    UnexpectedEnd,
    /// A string is longer than the capacity of its field.
    StringTooLong,
}

/// The two identifiers every packet carries: the outer command and, for an
/// extended packet, the inner one.
#[derive(Clone, Copy, Debug, PartialEq, Eq, Structural)]
pub struct PacketId {
    pub command: u8,
    pub extended: Option<u8>,
}

/// Everything that can end an operation on a device.
#[derive(Clone, Copy, Debug, PartialEq, Eq, Structural)]
pub enum DeviceError {
    /// The byte pipe failed.
    Io,
    /// The deadline passed before a whole reply arrived.
    Timeout,
    /// The CRC16 trailer of a frame does not match its bytes.
    FrameCrcError,
    /// More than the tolerated run of bytes went by without a preamble.
    NoFrameFound,
    /// A frame body is shorter than its schema.
    Decode(DecodeError),
    /// The reply carries other command ids than the request that awaits it.
    UnexpectedCommand { got: PacketId, expected: PacketId },
    /// The device answered with an acknowledgement byte other than success.
    Nack(u8),
    /// A request could not be encoded.
    Encode(EncodeError),
    /// A request was issued while another one was still in flight.
    Busy,
    /// The operation does not apply to this peer.
    NotSupported,
    /// The peer named a product this driver does not know.
    InvalidDevice,
    /// The file CRC the device reports differs from the host's.
    FileCrcMismatch { host: u32, device: u32 },
}

} // verus!
