//! Time measurements, taken with the `time` crate.

use vstd::prelude::*;

verus! {

/// A span of time, as the `time` crate measures it.
#[verifier::external_type_specification]
#[verifier::external_body]
pub struct ExDuration(time::Duration);

/// Relies on the `Clone` that `time::Duration` derives beside `Copy`: the
/// clone is the same value.
pub assume_specification[ <time::Duration as Clone>::clone ](d: &time::Duration) -> (r:
    time::Duration)
    ensures
        r == *d,
;

/// A point on a monotonic clock, as the `time` crate reads it.
#[verifier::external_type_specification]
#[verifier::external_body]
pub struct ExInstant(time::Instant);

/// Relies on `time::Instant::now`: reads the monotonic clock. Nothing is
/// promised of the value.
#[verifier::external_body]
pub(crate) fn now() -> (r: time::Instant) {
    time::Instant::now()
}

/// Relies on `time::Instant::to`: the signed span from `start` to `end`.
/// Nothing is promised of the value. It panics only on a span of more than
/// `i64::MAX` seconds, which two readings of one clock within a run never
/// reach.
#[verifier::external_body]
pub(crate) fn span(start: &time::Instant, end: time::Instant) -> (r: time::Duration) {
    start.to(end)
}

} // verus!
