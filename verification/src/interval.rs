use std::time::Duration;
use vstd::prelude::*;

verus! {

/// The number of whole seconds that a `Duration` spans.
pub uninterp spec fn whole_seconds(d: Duration) -> u64;

/// `Duration::as_secs` returns the whole seconds of the duration, leaving
/// out its sub-second part. The contract only gives that number its name.
pub assume_specification[ Duration::as_secs ](d: &Duration) -> (secs: u64)
    ensures
        secs == whole_seconds(*d),
;

/// An interval in seconds, with zero raised to one.
pub open spec fn at_least_one(secs: u64) -> u64 {
    if secs == 0 {
        1
    } else {
        secs
    }
}

/// Raises a zero interval to one second and leaves any other untouched.
pub fn clamp_seconds(secs: u64) -> (clamped: u64)
    ensures
        clamped == at_least_one(secs),
        clamped >= 1,
        secs >= 1 ==> clamped == secs,
{
    if secs == 0 {
        1
    } else {
        secs
    }
}

/// The whole seconds of `interval`, never less than one.
pub fn interval_seconds(interval: Duration) -> (secs: u64)
    ensures
        secs == at_least_one(whole_seconds(interval)),
{
    clamp_seconds(interval.as_secs())
}

} // verus!
