//! Durations.

use std::time::Duration;

use vstd::prelude::*;

verus! {

/// Number of nanoseconds in a duration, as [`Duration::as_nanos`] counts them.
pub uninterp spec fn duration_nanos(duration: Duration) -> nat;

/// `Duration::as_nanos` counts nanoseconds of a duration.
pub assume_specification[ Duration::as_nanos ](duration: &Duration) -> (nanos: u128)
    ensures
        nanos == duration_nanos(*duration),
;

/// `Duration::from_secs` makes a duration of a whole number of seconds.
pub assume_specification[ Duration::from_secs ](secs: u64) -> (duration: Duration)
    ensures
        duration_nanos(duration) == secs * 1_000_000_000,
;

} // verus!
