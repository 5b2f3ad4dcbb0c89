//! A device as the host sees it: the files it holds and the ports it is
//! reached through.

pub mod file;
pub mod vexdevice;
