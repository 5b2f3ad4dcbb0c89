//! Timestamps of the protocol, which count from the first instant of the
//! year 2000.

use vstd::prelude::*;

verus! {

/// The epoch of the serial protocols timestamps
pub const J2000_EPOCH: u32 = 946684800;

/// The epoch in milliseconds since the first instant of 1970.
pub const J2000_EPOCH_MS: u64 = 946_684_800_000;

/// The signed 32-bit value with the same low 32 bits as `x`.
pub open spec fn wrap_i32(x: int) -> i32 {
    let low = x % 0x1_0000_0000;
    if low < 0x8000_0000 {
        low as i32
    } else {
        (low - 0x1_0000_0000) as i32
    }
}

/// The unsigned 32-bit value with the same low 32 bits as `x`.
pub open spec fn wrap_u32(x: int) -> u32 {
    (x % 0x1_0000_0000) as u32
}

/// The timestamp for a clock that reads `now_ms`: the reading less the
/// epoch, both in milliseconds, cut to 32 bits. A clock that stands before
/// the epoch gives a negative timestamp.
pub open spec fn spec_j2000_timestamp(now_ms: int) -> i32 {
    wrap_i32(now_ms - J2000_EPOCH_MS)
}

/// The timestamp for a clock that reads `now_ms` milliseconds since the
/// first instant of 1970.
pub fn j2000_timestamp(now_ms: u128) -> (r: i32)
    ensures
        r == spec_j2000_timestamp(now_ms as int),
{
    let low: u64 = (now_ms % 0x1_0000_0000) as u64;
    let epoch_low: u64 = J2000_EPOCH_MS % 0x1_0000_0000;
    let shifted: u64 = (low + 0x1_0000_0000 - epoch_low) % 0x1_0000_0000;
    assert(shifted == (now_ms as int - J2000_EPOCH_MS) % 0x1_0000_0000);
    if shifted < 0x8000_0000 {
        shifted as i32
    } else {
        ((shifted as i64) - 0x1_0000_0000) as i32
    }
}

/// The whole seconds from the epoch to a clock that reads `unix_seconds`
/// seconds since the first instant of 1970, cut to 32 bits.
pub fn seconds_since_epoch(unix_seconds: i64) -> (r: u32)
    ensures
        r == wrap_u32(unix_seconds - J2000_EPOCH),
{
    let low: i64 = unix_seconds % 0x1_0000_0000;
    let lifted: i64 = (low + 0x2_0000_0000 - (J2000_EPOCH as i64)) % 0x1_0000_0000;
    assert(lifted == (unix_seconds - J2000_EPOCH) % 0x1_0000_0000);
    lifted as u32
}

/// `chrono::DateTime::<Utc>::from` on the reading of
/// `std::time::SystemTime::now`, followed by `chrono::DateTime::timestamp`:
/// the whole seconds that the system clock counts since the first instant
/// of 1970, negative for a clock that stands before it. Nothing is claimed
/// of the reading.
#[verifier::external_body]
pub(crate) fn unix_seconds_now() -> (r: i64) {
    chrono::DateTime::<chrono::Utc>::from(std::time::SystemTime::now()).timestamp()
}

} // verus!
