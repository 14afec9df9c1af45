//! The current time, read from `chrono` and from `jsonwebtoken`'s clock.
use vstd::prelude::*;

verus! {

/// `chrono::Utc::now()`, as microseconds since the Unix epoch
/// (`DateTime::timestamp_micros`). The value is the wall-clock time, so
/// nothing is promised of it.
#[verifier::external_body]
pub(crate) fn now_micros() -> i64 {
    chrono::Utc::now().timestamp_micros()
}

/// `chrono::Utc::now()`, as whole seconds since the Unix epoch
/// (`DateTime::timestamp`). The value is the wall-clock time, so nothing is
/// promised of it.
#[verifier::external_body]
pub(crate) fn now_secs() -> i64 {
    chrono::Utc::now().timestamp()
}

/// `jsonwebtoken::get_current_timestamp()`: whole seconds since the Unix
/// epoch, the clock token expiry is checked against. The value is the
/// wall-clock time, so nothing is promised of it (the call panics only when
/// the system clock reads a time before 1970).
#[verifier::external_body]
pub(crate) fn now_unix_secs() -> u64 {
    jsonwebtoken::get_current_timestamp()
}

} // verus!
