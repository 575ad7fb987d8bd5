use std::time::{Duration, Instant};
use vstd::prelude::*;

verus! {

/// `std::time::Instant`, carried opaquely through the processor state to pace cycles and
/// timers.
#[verifier::external_type_specification]
#[verifier::external_body]
pub struct ExInstant(Instant);

/// Relies on `Instant::now`: the current instant of the monotonic clock.
#[verifier::external_body]
pub(crate) fn now() -> Instant {
    Instant::now()
}

/// Relies on `Instant::elapsed`: the time since `since` on the monotonic clock. Nothing is
/// promised about the value.
#[verifier::external_body]
pub(crate) fn elapsed(since: &Instant) -> Duration {
    since.elapsed()
}

/// Relies on `Duration::as_micros`: the whole microseconds in `d`. Nothing is promised
/// about the value.
#[verifier::external_body]
pub(crate) fn whole_micros(d: &Duration) -> u128 {
    d.as_micros()
}

} // verus!
