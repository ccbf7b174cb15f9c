//! Monotonic time, as the receive paths use it for their deadlines.
//!
//! Nothing is stated of the values these calls return: they depend on the
//! clock. Verified code only carries them from one call to the next.

use vstd::prelude::*;

pub use std::time::{Duration, Instant};

verus! {

/// `std::time::Instant`, carried through verified code as an opaque value.
#[verifier::external_type_specification]
#[verifier::external_body]
pub struct ExInstant(std::time::Instant);

/// `Instant::now`: the current reading of the monotonic clock.
#[verifier::external_body]
pub(crate) fn now() -> (r: Instant) {
    Instant::now()
}

/// `Instant::checked_add`: `start + d`, or `None` when that instant is not
/// representable.
#[verifier::external_body]
pub(crate) fn checked_deadline(start: &Instant, d: Duration) -> (r: Option<Instant>) {
    start.checked_add(d)
}

/// `Instant::saturating_duration_since`: how long from `earlier` to
/// `later`, or zero if `later` is not after `earlier`.
#[verifier::external_body]
pub(crate) fn saturating_since(later: &Instant, earlier: &Instant) -> (r: Duration) {
    later.saturating_duration_since(*earlier)
}

/// `Duration::is_zero`.
#[verifier::external_body]
pub(crate) fn duration_is_zero(d: &Duration) -> (r: bool) {
    d.is_zero()
}

/// The duration of `us` microseconds, as `Duration::from_micros` makes it.
pub uninterp spec fn micros_duration(us: u64) -> Duration;

/// `Duration::from_micros`: the duration of `us` microseconds, which
/// depends on `us` alone.
#[verifier::external_body]
pub(crate) fn duration_from_micros(us: u64) -> (r: Duration)
    ensures
        r == micros_duration(us),
{
    Duration::from_micros(us)
}

/// The duration of `ms` milliseconds, as `Duration::from_millis` makes it.
pub uninterp spec fn millis_duration(ms: u64) -> Duration;

/// `Duration::from_millis`: the duration of `ms` milliseconds, which
/// depends on `ms` alone.
#[verifier::external_body]
pub(crate) fn duration_from_millis(ms: u64) -> (r: Duration)
    ensures
        r == millis_duration(ms),
{
    Duration::from_millis(ms)
}

} // verus!
