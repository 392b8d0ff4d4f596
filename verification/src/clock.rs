//! Readings of the wall clock, as RFC 3339 text in UTC.
//!
//! Every time the library stores (creation, start, completion, claim and
//! lease times) is read here. What comes back depends on the machine's
//! clock, so nothing is stated of it: the functions that use a reading say
//! where it goes, not what it is.
use vstd::prelude::*;

verus! {

/// The current time in UTC as RFC 3339 text: `std::time::SystemTime::now()`
/// taken into a `chrono::DateTime<chrono::Utc>` by its `From` impl (which
/// also reads times before 1970), then `to_rfc3339`.
///
/// Nothing is claimed of the text, which is the machine's clock.
#[verifier::external_body]
pub(crate) fn now_rfc3339() -> String {
    chrono::DateTime::<chrono::Utc>::from(std::time::SystemTime::now()).to_rfc3339()
}

/// One reading of the clock and the time `minutes` minutes after it, both
/// as RFC 3339 text: `std::time::SystemTime::now()` taken into a
/// `chrono::DateTime<chrono::Utc>`, and that plus
/// `chrono::Duration::minutes(minutes)`.
///
/// Nothing is claimed of either text, which rest on the machine's clock;
/// that the second is `minutes` after the first is what chrono computes and
/// is not stated here.
#[verifier::external_body]
pub(crate) fn now_and_minutes_later(minutes: u32) -> (String, String) {
    let now = chrono::DateTime::<chrono::Utc>::from(std::time::SystemTime::now());
    let later = now + chrono::Duration::minutes(minutes as i64);
    (now.to_rfc3339(), later.to_rfc3339())
}

} // verus!
