//! Sizes, ratios and timing of an operation.

use std::time::{Duration, Instant};
use vstd::prelude::*;

verus! {

/// A percentage as an exact fraction: `numerator / denominator` percent.
#[derive(Clone, Copy, Debug, PartialEq, Eq, Structural)]
pub struct Percent {
    pub numerator: u128,
    pub denominator: u128,
}

/// The size of a patch as a percentage of the sizes of the old and the new
/// file together: `patch_size / (old_size + new_size) * 100`, and zero
/// where both files are empty.
pub open spec fn ratio_of(old_size: u64, new_size: u64, patch_size: u64) -> Percent {
    if old_size + new_size == 0 {
        Percent { numerator: 0, denominator: 1 }
    } else {
        Percent {
            numerator: (patch_size * 100) as u128,
            denominator: (old_size + new_size) as u128,
        }
    }
}

impl Percent {
    /// The percentage that a patch of `patch_size` bytes is of an old file
    /// of `old_size` and a new file of `new_size` bytes.
    pub fn of(old_size: u64, new_size: u64, patch_size: u64) -> (ratio: Percent)
        ensures
            ratio == ratio_of(old_size, new_size, patch_size),
            ratio.denominator > 0,
    {
        let total: u128 = old_size as u128 + new_size as u128;
        if total == 0 {
            Percent { numerator: 0, denominator: 1 }
        } else {
            Percent { numerator: patch_size as u128 * 100, denominator: total }
        }
    }
}

/// What an operation took and what it left behind.
#[derive(Clone, Copy, Debug, PartialEq, Eq, Structural)]
pub struct PerformanceStats {
    /// Time that the operation took, in milliseconds.
    pub elapsed_ms: u64,
    /// Size of the old file in bytes.
    pub old_size: u64,
    /// Size of the new file in bytes.
    pub new_size: u64,
    /// Size of the patch in bytes.
    pub patch_size: u64,
    /// Size of the patch as a percentage of both files together.
    pub compression_ratio: Percent,
}

impl PerformanceStats {
    /// Whether the ratio is the one that the three sizes give.
    pub open spec fn consistent(self) -> bool {
        self.compression_ratio == ratio_of(self.old_size, self.new_size, self.patch_size)
    }

    /// The statistics of an operation that took `elapsed_millis`
    /// milliseconds and left files of the three sizes.
    ///
    /// The time is kept in 64 bits; of a longer one the low 64 bits stay.
    pub fn new(elapsed_millis: u128, old_size: u64, new_size: u64, patch_size: u64) -> (stats:
        PerformanceStats)
        ensures
            stats.elapsed_ms == elapsed_millis % 0x1_0000_0000_0000_0000,
            stats.old_size == old_size,
            stats.new_size == new_size,
            stats.patch_size == patch_size,
            stats.consistent(),
    {
        let elapsed_ms: u64 = (elapsed_millis % 0x1_0000_0000_0000_0000) as u64;
        PerformanceStats {
            elapsed_ms,
            old_size,
            new_size,
            patch_size,
            compression_ratio: Percent::of(old_size, new_size, patch_size),
        }
    }
}

/// `std::time::Instant`: a reading of the clock, carried from the start of
/// a measurement to its end and never looked into.
#[verifier::external_type_specification]
#[verifier::external_body]
pub struct ExInstant(std::time::Instant);

/// `Instant::now`: a reading of the monotonic clock. Nothing is known of it.
pub assume_specification[ std::time::Instant::now ]() -> (now: Instant);

/// `Instant::elapsed`: the time since the reading was taken. Nothing is
/// known of it.
pub assume_specification[ std::time::Instant::elapsed ](start: &Instant) -> (elapsed: Duration);

/// `Duration::as_millis`: the whole milliseconds of a duration. Nothing is
/// known of them.
pub assume_specification[ std::time::Duration::as_millis ](duration: &Duration) -> (millis: u128);

/// A running measurement of wall-clock time.
pub struct Stopwatch {
    started: Instant,
}

impl Stopwatch {
    /// Starts measuring.
    pub fn start() -> Stopwatch {
        Stopwatch { started: Instant::now() }
    }

    /// Whole milliseconds since the measurement started.
    pub fn elapsed_millis(&self) -> u128 {
        self.started.elapsed().as_millis()
    }
}

} // verus!
