//! Host-side driver core for VEX V5 robot controllers.
//!
//! The crate holds the protocol logic only: codecs, the packet catalog, the
//! framer, and the session state machines. It performs no I/O. A caller owns
//! the byte pipe, writes the bytes this crate hands out and feeds back the
//! bytes it reads.

pub mod device;
pub mod devices;
pub mod errors;
pub mod commands;
pub mod connection;
pub mod crc;
pub mod packets;
pub mod protocol;
pub mod string;
pub mod timestamp;
pub mod v5;
pub mod varint;
pub mod wire;
