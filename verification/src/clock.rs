//! The time at which a row is written.

use vstd::prelude::*;

verus! {

/// The current time in UTC as an RFC 3339 text, such as
/// `2024-05-01T08:30:00.123456789+00:00`.
///
/// Reads the clock with `std::time::SystemTime::now`, turns the instant
/// into a `chrono::DateTime<Utc>` with chrono's `From<SystemTime>`, which
/// also takes instants before 1970, and into a text with
/// `chrono::DateTime::to_rfc3339`. Nothing is claimed of the text: it
/// depends on when the call is made. The conversion panics only where the
/// clock stands outside the years that chrono can hold, some 262 000 years
/// from now.
#[verifier::external_body]
pub(crate) fn current_time() -> (now: String) {
    chrono::DateTime::<chrono::Utc>::from(std::time::SystemTime::now()).to_rfc3339()
}

} // verus!
