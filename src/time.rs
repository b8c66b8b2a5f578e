//! Instants as plain numbers, and the outside calls that produce them.
use vstd::prelude::*;

verus! {

/// A point in time: milliseconds since the Unix epoch, UTC.
#[derive(Debug, Clone, Copy, PartialEq, Eq, Structural)]
pub struct Timestamp {
    pub millis: i64,
}

/// The instant that `chrono::DateTime::parse_from_str` reads from `text` with
/// `format`, in milliseconds since the epoch; nothing when it rejects the text.
pub uninterp spec fn formatted_instant(text: Seq<char>, format: Seq<char>) -> Option<i64>;

/// The instant that chrono's `FromStr` for `DateTime<Utc>` (relaxed RFC 3339)
/// reads from `text`; nothing when it rejects the text.
pub uninterp spec fn rfc3339_instant(text: Seq<char>) -> Option<i64>;

/// Relies on `chrono::DateTime::parse_from_str` and `DateTime::timestamp_millis`:
/// the instant depends on the two strings alone.
#[verifier::external_body]
pub(crate) fn parse_formatted_instant(text: &str, format: &str) -> (r: Option<i64>)
    ensures
        r == formatted_instant(text@, format@),
{
    chrono::DateTime::parse_from_str(text, format).ok().map(|dt| dt.timestamp_millis())
}

/// Relies on `str::parse::<chrono::DateTime<chrono::Utc>>` and
/// `DateTime::timestamp_millis`: the instant depends on the text alone.
#[verifier::external_body]
pub(crate) fn parse_rfc3339_instant(text: &str) -> (r: Option<i64>)
    ensures
        r == rfc3339_instant(text@),
{
    text.parse::<chrono::DateTime<chrono::Utc>>().ok().map(|dt| dt.timestamp_millis())
}

/// Relies on `chrono::Utc::now`: the wall-clock time, about which nothing is
/// promised.
#[verifier::external_body]
pub(crate) fn now_timestamp() -> (r: Timestamp) {
    Timestamp { millis: chrono::Utc::now().timestamp_millis() }
}

#[verifier::external_type_specification]
#[verifier::external_body]
pub struct ExInstant(std::time::Instant);

/// Relies on `std::time::Instant::now`: a reading of the monotonic clock.
#[verifier::external_body]
pub(crate) fn instant_now() -> (r: std::time::Instant) {
    std::time::Instant::now()
}

/// Relies on `std::time::Instant::elapsed`: whole milliseconds since `origin`,
/// about which nothing is promised here.
#[verifier::external_body]
pub(crate) fn millis_since(origin: &std::time::Instant) -> (r: u64) {
    origin.elapsed().as_millis() as u64
}

} // verus!
