//! Points in time as plain values, and the reading of the clocks.

use vstd::prelude::*;

verus! {

/// A point in time: whole seconds since the Unix epoch (UTC) and the
/// nanoseconds within that second.
#[derive(Clone, Copy, Debug, PartialEq, Eq, Structural)]
pub struct Timestamp {
    pub secs: i64,
    pub nanos: u32,
}

/// The monotonic clock's instant type, carried through as an opaque value.
#[verifier::external_type_specification]
#[verifier::external_body]
pub struct ExInstant(std::time::Instant);

/// Reads the wall clock through `chrono::Utc::now` and splits the result with
/// `DateTime::timestamp` and `DateTime::timestamp_subsec_nanos`. Nothing is
/// claimed of the value: it is whatever the clock says. `Utc::now` aborts
/// when the system clock stands before the Unix epoch.
#[verifier::external_body]
pub(crate) fn utc_now() -> (now: Timestamp) {
    let t = chrono::Utc::now();
    Timestamp { secs: t.timestamp(), nanos: t.timestamp_subsec_nanos() }
}

/// Reads the monotonic clock through `std::time::Instant::now`. Nothing is
/// claimed of the value.
#[verifier::external_body]
pub(crate) fn instant_now() -> (now: std::time::Instant) {
    std::time::Instant::now()
}

/// The time elapsed since `start`, through `std::time::Instant::elapsed`.
/// Nothing is claimed of the value.
#[verifier::external_body]
pub(crate) fn elapsed(start: &std::time::Instant) -> (d: std::time::Duration) {
    start.elapsed()
}

/// The whole seconds of a duration, through `std::time::Duration::as_secs`.
/// Nothing is claimed of the value.
#[verifier::external_body]
pub(crate) fn whole_secs(d: &std::time::Duration) -> (secs: u64) {
    d.as_secs()
}

} // verus!
