//! The `std::time::Duration` operations the configuration types rely on.

use std::time::Duration;
use vstd::prelude::*;

verus! {

/// What `Duration::from_millis` returns for a millisecond count.
pub uninterp spec fn std_duration_from_millis(millis: u64) -> Duration;

/// What `Duration::as_nanos` returns for a duration: its total length in
/// nanoseconds.
pub uninterp spec fn std_duration_nanos(duration: Duration) -> u128;

/// What `Duration::is_zero` returns for a duration.
pub uninterp spec fn std_duration_is_zero(duration: Duration) -> bool;

/// Calls `Duration::from_millis`. Claims that the result is determined by
/// the millisecond count and, as its documentation states, is that many
/// milliseconds long: zero exactly when the count is zero, and
/// `millis * 1_000_000` nanoseconds.
#[verifier::external_body]
pub fn duration_from_millis(millis: u64) -> (d: Duration)
    ensures
        d == std_duration_from_millis(millis),
        std_duration_is_zero(d) == (millis == 0),
        std_duration_nanos(d) == millis * 1_000_000,
{
    Duration::from_millis(millis)
}

/// Calls `Duration::is_zero`. Claims only that the answer is determined by
/// the duration.
#[verifier::external_body]
pub fn duration_is_zero(duration: &Duration) -> (r: bool)
    ensures
        r == std_duration_is_zero(*duration),
{
    duration.is_zero()
}

/// Calls `Duration::as_nanos`. Claims only that the answer is determined
/// by the duration.
#[verifier::external_body]
pub fn duration_as_nanos(duration: &Duration) -> (r: u128)
    ensures
        r == std_duration_nanos(*duration),
{
    duration.as_nanos()
}

/// `Duration::clone`: `Duration` is `Copy` and its derived `clone` returns
/// the same value; claimed as such.
pub assume_specification[ <Duration as Clone>::clone ](d: &Duration) -> (r: Duration)
    ensures
        r == *d,
;

} // verus!
