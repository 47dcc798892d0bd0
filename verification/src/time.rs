//! What the library knows of `std::time::Duration`: its length in nanoseconds.
use vstd::prelude::*;
use std::time::Duration;

verus! {

/// The length of a duration in whole nanoseconds.
pub uninterp spec fn duration_nanos(d: Duration) -> nat;

/// Nanoseconds in a millisecond.
pub const NANOS_PER_MILLI: u64 = 1_000_000;

/// `Duration::from_millis`: the duration of that many milliseconds, which is a
/// million times as many nanoseconds.
pub assume_specification[ Duration::from_millis ](millis: u64) -> (d: Duration)
    ensures
        duration_nanos(d) == millis as nat * NANOS_PER_MILLI as nat,
;

/// `Duration::as_nanos`: the length of the duration in whole nanoseconds.
pub assume_specification[ Duration::as_nanos ](d: &Duration) -> (nanos: u128)
    ensures
        nanos == duration_nanos(*d),
;

} // verus!
