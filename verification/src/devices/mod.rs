//! The devices that a host finds on its serial ports.

pub mod genericv5;

use vstd::prelude::*;

verus! {

/// What a serial port of a V5 device is for.
#[derive(Clone, Copy, Debug, PartialEq, Eq, Structural)]
pub enum VexPortType {
    /// The port a program's standard streams run over.
    User,
    /// The port the command protocol runs over.
    System,
    /// The one port of a controller.
    Controller,
}

/// What stands behind a serial port, as far as the ports tell.
#[derive(Clone, Copy, Debug, PartialEq, Eq, Structural)]
pub enum VexDeviceType {
    /// A brain, with its system port and its user port.
    Brain,
    /// A controller.
    Controller,
    /// A system port without a user port beside it.
    Unknown,
}

/// A serial port that a device is reached through.
#[derive(Clone, Debug, PartialEq, Eq)]
pub struct VexSerialInfo {
    pub port_name: String,
    pub port_type: VexPortType,
}

/// A device and the ports it is reached through.
#[derive(Clone, Debug, PartialEq, Eq)]
pub struct VexDevice {
    pub system_port: String,
    pub user_port: Option<String>,
    pub device_type: VexDeviceType,
}

} // verus!
