//! The timer that feeds the jitter-based random source: wall-clock time
//! folded into one 64-bit value.

use std::time::{Duration, SystemTime, UNIX_EPOCH};
use vstd::prelude::*;

verus! {

/// std's `SystemTime`, carried from the clock to the subtraction and never
/// looked into.
#[verifier::external_type_specification]
#[verifier::external_body]
pub struct ExSystemTime(SystemTime);

/// Nanoseconds in one second.
pub const NANOS_PER_SEC: u32 = 1_000_000_000;

/// Seconds shifted left by thirty bits, joined with the sub-second
/// nanoseconds by bitwise or. Bits of `secs` above the low thirty-four are
/// shifted out.
pub open spec fn packed_time(secs: u64, nanos: u32) -> u64 {
    (secs << 30) | (nanos as u64)
}

/// Folds a reading of seconds and sub-second nanoseconds into one value.
/// The low thirty bits of the result are the nanoseconds whenever these
/// are a true sub-second count.
pub fn pack_time(secs: u64, nanos: u32) -> (t: u64)
    ensures
        t == packed_time(secs, nanos),
        nanos < NANOS_PER_SEC ==> t & 0x3FFF_FFFF == nanos,
        nanos < NANOS_PER_SEC ==> t >> 30 == secs & 0x3_FFFF_FFFF,
{
    let wide: u64 = nanos as u64;
    let t: u64 = secs << 30 | wide;
    assert(wide < 1_000_000_000 ==> ((secs << 30) | wide) & 0x3FFF_FFFF == wide) by (bit_vector);
    assert(wide < 1_000_000_000 ==> ((secs << 30) | wide) >> 30 == secs & 0x3_FFFF_FFFF)
        by (bit_vector);
    t
}

/// The system clock's current reading.
///
/// Trusted: calls `SystemTime::now`; nothing is claimed of the reading.
#[verifier::external_body]
fn wall_clock() -> SystemTime {
    SystemTime::now()
}

/// The time from the Unix epoch to `at`, `None` where `at` lies before it.
///
/// Trusted: calls `SystemTime::duration_since`; nothing is claimed of the
/// result.
#[verifier::external_body]
fn since_epoch(at: &SystemTime) -> Option<Duration> {
    at.duration_since(UNIX_EPOCH).ok()
}

/// Whole seconds of a duration.
///
/// Trusted: calls `Duration::as_secs`; nothing is claimed of the result.
#[verifier::external_body]
fn whole_seconds(d: &Duration) -> u64 {
    d.as_secs()
}

/// The fractional part of a duration in nanoseconds.
///
/// Trusted: calls `Duration::subsec_nanos`, documented to be less than one
/// second's worth of nanoseconds.
#[verifier::external_body]
fn subsecond_nanos(d: &Duration) -> (n: u32)
    ensures
        n < NANOS_PER_SEC,
{
    d.subsec_nanos()
}

/// Reads the wall clock and packs the time since the Unix epoch as
/// `packed_time` does. A clock set before the epoch reads as zero.
///
/// Whatever the clock says, the low thirty bits of the result are a
/// sub-second nanosecond count.
pub fn get_nstime() -> (t: u64)
    ensures
        t & 0x3FFF_FFFF < NANOS_PER_SEC,
{
    let now = wall_clock();
    match since_epoch(&now) {
        Some(elapsed) => pack_time(whole_seconds(&elapsed), subsecond_nanos(&elapsed)),
        None => {
            assert(0u64 & 0x3FFF_FFFF == 0) by (bit_vector);
            0
        },
    }
}

} // verus!
