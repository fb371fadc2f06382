//! Points in time.
use vstd::prelude::*;

verus! {

/// A point in time, held as the number of microseconds since the Unix epoch.
pub type DateTime = i64;

/// The current time, from `chrono::Utc::now`, in microseconds since the Unix epoch.
///
/// Trusted: the value depends on the clock, so only what holds of every
/// outcome is claimed: it is not negative, since the crate's source panics when
/// the system clock reads a time before the epoch.
#[verifier::external_body]
pub(crate) fn now_micros() -> (t: i64)
    ensures
        t >= 0,
{
    ::chrono::Utc::now().timestamp_micros()
}

} // verus!
