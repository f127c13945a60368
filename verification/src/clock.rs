//! The wall clock, read through `chrono`.

use vstd::prelude::*;

verus! {

/// The current time in whole seconds since the Unix epoch.
///
/// Trusted: calls `chrono::Utc::now` and `DateTime::timestamp`.  Nothing is
/// claimed of the result, which differs from call to call.  `chrono` panics
/// if the system clock stands before the epoch.
#[verifier::external_body]
pub(crate) fn unix_now() -> (seconds: i64) {
    chrono::Utc::now().timestamp()
}

/// The current local time, written with the pattern `%Y%m%d_%H%M%S`.
///
/// Trusted: calls `chrono::Local::now`, `DateTime::format` and `to_string`.
/// Nothing is claimed of the result, which depends on the clock and on the
/// machine's time zone.  Only the one pattern is accepted, since writing a
/// time with a malformed pattern panics.  `chrono` panics if the system
/// clock stands before the epoch.
#[verifier::external_body]
pub(crate) fn local_stamp(pattern: &str) -> (stamp: String)
    requires
        pattern@ == "%Y%m%d_%H%M%S"@,
{
    chrono::Local::now().format(pattern).to_string()
}

} // verus!
