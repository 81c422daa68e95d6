//! Wall-clock readings as the nanosecond timestamps that batches carry.

use vstd::prelude::*;

verus! {

/// Nanoseconds in one second.
pub const TO_NS: u64 = 1_000_000_000;

/// Instant that file-time readings are counted from, so that timestamps
/// stay short: 11 July 2019, as hundreds of nanoseconds since 1601.
pub const TIMEPOINT: u64 = 132080302920000000;

/// Nanoseconds since the epoch for a reading of whole seconds and
/// nanoseconds within the second, where that is a `u64`.
pub open spec fn timespec_nanoseconds(sec: i64, nsec: i32) -> Option<u64> {
    if sec >= 0 && nsec >= 0 && sec * 1_000_000_000 + nsec <= u64::MAX {
        Some((sec * 1_000_000_000 + nsec) as u64)
    } else {
        None
    }
}

/// Nanoseconds since `TIMEPOINT` for a file time given by its two words,
/// where the file time is not earlier and the result is a `u64`.
pub open spec fn filetime_nanoseconds(high: u32, low: u32) -> Option<u64> {
    let t = high * 0x1_0000_0000 + low;
    if t >= TIMEPOINT && (t - TIMEPOINT) * 100 <= u64::MAX {
        Some(((t - TIMEPOINT) * 100) as u64)
    } else {
        None
    }
}

/// Computes `timespec_nanoseconds`.
pub fn nanoseconds_of_timespec(sec: i64, nsec: i32) -> (ns: Option<u64>)
    ensures
        ns == timespec_nanoseconds(sec, nsec),
{
    if sec < 0 || nsec < 0 {
        return None;
    }
    assert(sec * 1_000_000_000 <= 0x7fff_ffff_ffff_ffff * 1_000_000_000) by (nonlinear_arith)
        requires
            0 <= sec <= 0x7fff_ffff_ffff_ffff,
    ;
    let whole: u128 = (sec as u128) * (TO_NS as u128) + (nsec as u128);
    if whole <= u64::MAX as u128 {
        Some(whole as u64)
    } else {
        None
    }
}

/// The current time in nanoseconds since `TIMEPOINT`, from the two words of
/// a system file time, which counts hundreds of nanoseconds.
pub fn get_steady_time_nanoseconds(high: u32, low: u32) -> (ns: Option<u64>)
    ensures
        ns == filetime_nanoseconds(high, low),
{
    let t: u64 = (high as u64) * 0x1_0000_0000u64 + (low as u64);
    if t < TIMEPOINT {
        return None;
    }
    let since: u128 = ((t - TIMEPOINT) as u128) * 100u128;
    if since <= u64::MAX as u128 {
        Some(since as u64)
    } else {
        None
    }
}

/// Calls `time::get_time`, which reads the system's real-time clock, and
/// hands out the seconds and nanoseconds of the reading. The reading
/// differs from call to call; the nanoseconds lie within one second, as the
/// constructor of the crate's `Timespec` insists.
#[verifier::external_body]
fn read_wall_clock() -> (now: (i64, i32))
    ensures
        0 <= now.1 < 1_000_000_000,
{
    let t = time::get_time();
    (t.sec, t.nsec)
}

/// The current time in nanoseconds since the epoch, or nothing where the
/// clock stands before the epoch or beyond what a `u64` holds.
pub fn get_time_steady_nanoseconds() -> (ns: Option<u64>)
    ensures
        exists|sec: i64, nsec: i32|
            0 <= nsec < 1_000_000_000 && ns == #[trigger] timespec_nanoseconds(sec, nsec),
{
    let now: (i64, i32) = read_wall_clock();
    nanoseconds_of_timespec(now.0, now.1)
}

} // verus!
