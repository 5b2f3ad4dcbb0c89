//! What is specific to the V5 family of devices.

pub mod meta;
