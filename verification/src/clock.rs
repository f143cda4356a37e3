//! The monotonic clock of the standard library, as the throttling logic sees it.
//! Readings and elapsed times are opaque: nothing is claimed of their values.
use vstd::prelude::*;
use std::time::Duration;
use std::time::Instant;

verus! {

/// `std::time::Instant`, a reading of the monotonic clock.
#[verifier::external_type_specification]
#[verifier::external_body]
pub struct ExInstant(Instant);

/// Calls `Instant::now`. The reading depends on when the call is made, so no
/// clause is stated of it.
#[verifier::external_body]
pub(crate) fn instant_now() -> Instant {
    Instant::now()
}

/// Calls `Instant::duration_since`: the time from `earlier` to `later` (zero
/// when `earlier` is the later one). Instants are opaque here, so no clause is
/// stated of the result.
#[verifier::external_body]
pub(crate) fn instant_duration_since(later: &Instant, earlier: &Instant) -> Duration {
    later.duration_since(*earlier)
}

/// Calls `Duration::as_nanos`: whole nanoseconds in `d`. Durations are
/// opaque here, so no clause is stated of the result.
#[verifier::external_body]
pub(crate) fn duration_as_nanos(d: &Duration) -> u128 {
    d.as_nanos()
}

} // verus!
