//! Readings of the wall clock. Nothing is known of a reading before it is
//! taken, so these functions promise nothing about what they return.

use vstd::prelude::*;

verus! {

/// Calls `chrono::Utc::now` and `DateTime::timestamp_millis`: the number of
/// milliseconds since the Unix epoch. The contract claims nothing of the
/// value. `Utc::now` panics on a machine whose clock stands before the epoch.
#[verifier::external_body]
pub(crate) fn now_millis() -> i64 {
    chrono::Utc::now().timestamp_millis()
}

/// Calls `chrono::Utc::now` and `DateTime::to_rfc3339`: the current time in
/// RFC 3339 notation. The contract claims nothing of the text. `Utc::now`
/// panics on a machine whose clock stands before the epoch.
#[verifier::external_body]
pub(crate) fn now_rfc3339() -> String {
    chrono::Utc::now().to_rfc3339()
}

/// Calls `chrono::Utc::now` and `DateTime::format` with the pattern
/// `%Y%m%d_%H%M%S`: the current time as it goes into a file name. The
/// contract claims nothing of the text.
#[verifier::external_body]
pub(crate) fn now_for_file_name() -> String {
    chrono::Utc::now().format("%Y%m%d_%H%M%S").to_string()
}

/// Calls `chrono::Utc::now` and `DateTime::format` with the pattern
/// `%Y-%m-%d %H:%M:%S`: the current time as it goes into a log line. The
/// contract claims nothing of the text.
#[verifier::external_body]
pub(crate) fn now_for_log_line() -> String {
    chrono::Utc::now().format("%Y-%m-%d %H:%M:%S").to_string()
}

} // verus!
