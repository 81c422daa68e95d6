//! The latest encoder position, shared between the two channels of a run
//! for the display's sake.
//!
//! The encoder's side stores, the analog side loads, each at display rate
//! and on whatever thread drives it. The last writer wins. The value is
//! shown, never decided upon.

use vstd::prelude::*;
use atomic::Atomic;
use std::time::{Duration, Instant};
use crate::scan::{EncoderReading, EncoderTick};

verus! {

/// The atomic crate's cell, carried through as it is.
#[verifier::external_type_specification]
#[verifier::external_body]
#[verifier::reject_recursive_types(T)]
pub struct ExAtomic<T>(Atomic<T>);

/// A reading of std's monotonic clock, carried through as it is.
#[verifier::external_type_specification]
#[verifier::external_body]
pub struct ExInstant(Instant);

/// What the display needs beside the analog sample: when the run began,
/// and where the encoder last stood.
pub struct LatestSensorData {
    start_t: Instant,
    pos: Atomic<EncoderTick>,
}

/// Calls `Instant::now` of std, which reads the monotonic clock.
#[verifier::external_body]
fn instant_now() -> (now: Instant) {
    Instant::now()
}

/// Calls `Instant::elapsed` of std: the time since the instant, by the
/// monotonic clock.
#[verifier::external_body]
fn elapsed_since(start: &Instant) -> (elapsed: Duration) {
    start.elapsed()
}

/// Calls `Duration::as_millis` of std: the whole milliseconds of the
/// duration.
#[verifier::external_body]
fn whole_millis(elapsed: &Duration) -> (millis: u128) {
    elapsed.as_millis()
}

/// The value that `Atomic::new` of the atomic crate was given when it made
/// the cell. It says nothing of what the cell holds later.
pub uninterp spec fn made_with(cell: Atomic<EncoderTick>) -> EncoderTick;

/// Calls `Atomic::new` of the atomic crate, which makes a cell that holds
/// the given value.
#[verifier::external_body]
fn atomic_new(value: EncoderTick) -> (cell: Atomic<EncoderTick>)
    ensures
        made_with(cell) == value,
{
    Atomic::new(value)
}

/// Calls `Atomic::store` of the atomic crate with relaxed ordering, which
/// that method accepts.
#[verifier::external_body]
fn atomic_store(cell: &Atomic<EncoderTick>, value: EncoderTick) {
    cell.store(value, atomic::Ordering::Relaxed)
}

/// Calls `Atomic::load` of the atomic crate with relaxed ordering, which
/// that method accepts. What comes back is what some thread stored last,
/// so nothing is claimed of it.
#[verifier::external_body]
fn atomic_load(cell: &Atomic<EncoderTick>) -> (value: EncoderTick) {
    cell.load(atomic::Ordering::Relaxed)
}

impl LatestSensorData {
    /// Where the encoder stood, for the display, when the cache was made.
    pub closed spec fn initial_position(&self) -> EncoderTick {
        made_with(self.pos)
    }

    /// A cache for a run that begins now, with the encoder at zero.
    pub fn new() -> (cache: Self)
        ensures
            cache.initial_position() == 0,
    {
        LatestSensorData { start_t: instant_now(), pos: atomic_new(0) }
    }

    /// Notes where the encoder stands.
    pub fn store_position(&self, reading: &EncoderReading) {
        atomic_store(&self.pos, reading.pos)
    }

    /// Where the encoder last stood, as far as this thread can tell.
    pub fn latest_position(&self) -> (pos: EncoderTick) {
        atomic_load(&self.pos)
    }

    /// Whole milliseconds since the run began.
    pub fn elapsed_millis(&self) -> (millis: u128) {
        let elapsed: Duration = elapsed_since(&self.start_t);
        whole_millis(&elapsed)
    }
}

} // verus!
