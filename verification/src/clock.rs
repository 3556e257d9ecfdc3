//! Time as the timers take it: whole nanoseconds in a `u64`.

use vstd::prelude::*;

verus! {

/// Nanoseconds in a second.
pub const NANOS_PER_SECOND: u64 = 1_000_000_000;

/// A span of whole seconds and a part of a second, in nanoseconds, cut off
/// at `u64::MAX`.
pub open spec fn nanos_of(secs: u64, subsec_nanos: u32) -> u64 {
    if secs * NANOS_PER_SECOND + subsec_nanos <= u64::MAX {
        (secs * NANOS_PER_SECOND + subsec_nanos) as u64
    } else {
        u64::MAX
    }
}

/// The time of one tick in nanoseconds, from the seconds and the nanoseconds
/// beside them that a clock reports. A span too long for a `u64` counts as
/// the longest one.
pub fn tick_nanos(secs: u64, subsec_nanos: u32) -> (nanos: u64)
    ensures
        nanos == nanos_of(secs, subsec_nanos),
{
    match secs.checked_mul(NANOS_PER_SECOND) {
        Some(whole) => whole.saturating_add(subsec_nanos as u64),
        None => u64::MAX,
    }
}

} // verus!
