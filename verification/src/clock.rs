//! Trusted access to the system clock, used to stamp cache refreshes and
//! price-history entries. The results depend on the clock, so nothing is
//! promised of them.

use vstd::prelude::*;

verus! {

/// Relies on chrono::Utc::now and chrono::DateTime::to_rfc3339: the current
/// instant as an RFC 3339 timestamp.
#[verifier::external_body]
pub(crate) fn now_rfc3339() -> String {
    chrono::Utc::now().to_rfc3339()
}

/// Relies on chrono::Local::now and chrono::NaiveDateTime's Display: the
/// current local time as a plain timestamp string.
#[verifier::external_body]
pub(crate) fn now_local_string() -> String {
    chrono::Local::now().naive_local().to_string()
}

} // verus!
