//! What the library assumes of `std::time::Duration`.

use std::time::Duration;
use vstd::prelude::*;

verus! {

/// The length of a [`Duration`] in nanoseconds.
pub uninterp spec fn nanos_of(duration: Duration) -> nat;

/// Nanoseconds in a millisecond.
pub open spec fn nanos_per_milli() -> nat {
    1_000_000
}

/// `Duration::from_millis` makes a duration of that many whole milliseconds.
pub assume_specification[ Duration::from_millis ](millis: u64) -> (duration: Duration)
    ensures
        nanos_of(duration) == millis * nanos_per_milli(),
;

/// `Duration::as_millis` returns the number of whole milliseconds that the
/// duration holds.
pub assume_specification[ Duration::as_millis ](duration: &Duration) -> (millis: u128)
    ensures
        millis == nanos_of(*duration) / nanos_per_milli(),
;

/// `Duration::checked_sub` returns the difference, or `None` where the
/// difference would be negative.
pub assume_specification[ Duration::checked_sub ](duration: Duration, rhs: Duration) -> (difference:
    Option<Duration>)
    ensures
        match difference {
            Some(d) => nanos_of(duration) >= nanos_of(rhs) && nanos_of(d) == nanos_of(duration)
                - nanos_of(rhs),
            None => nanos_of(duration) < nanos_of(rhs),
        },
;

} // verus!
