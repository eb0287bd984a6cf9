//! The clock and the random identifier generator.
//!
//! Their results depend on the moment and on chance, so the contracts say
//! only what holds of every outcome.

use vstd::prelude::*;

verus! {

/// Relies on `uuid::Uuid::new_v4` and the hyphenated form that `Uuid`'s
/// `Display` writes: 36 characters, with hyphens at positions 8, 13, 18
/// and 23.
#[verifier::external_body]
pub(crate) fn new_uuid() -> (r: String)
    ensures
        r@.len() == 36,
        r@[8] == '-',
        r@[13] == '-',
        r@[18] == '-',
        r@[23] == '-',
{
    uuid::Uuid::new_v4().to_string()
}

/// Relies on `chrono::Utc::now` and `DateTime::timestamp_millis`: the current
/// time in milliseconds since the Unix epoch.
#[verifier::external_body]
pub(crate) fn now_millis() -> (r: i64) {
    chrono::Utc::now().timestamp_millis()
}

/// Relies on `chrono::Utc::now` and its `%Y%m%d` format: today's UTC date.
#[verifier::external_body]
pub(crate) fn utc_date_stamp() -> (r: String) {
    chrono::Utc::now().format("%Y%m%d").to_string()
}

/// The instant an RFC 3339 timestamp denotes, in milliseconds since the Unix
/// epoch, as chrono parses it; `None` when the text is not such a timestamp.
pub uninterp spec fn rfc3339_millis(s: Seq<char>) -> Option<i64>;

/// Relies on `chrono::DateTime::parse_from_rfc3339` and
/// `DateTime::timestamp_millis`: the result depends on the text alone.
#[verifier::external_body]
pub(crate) fn parse_rfc3339_millis(s: &str) -> (r: Option<i64>)
    ensures
        r == rfc3339_millis(s@),
{
    match chrono::DateTime::parse_from_rfc3339(s) {
        Ok(d) => Some(d.timestamp_millis()),
        Err(_) => None,
    }
}

} // verus!
