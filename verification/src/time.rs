//! Instants as text. An instant is a count of nanoseconds since the Unix
//! epoch, UTC; `chrono` renders and reads the text forms.

use vstd::prelude::*;

verus! {

/// The RFC 3339 text `chrono` writes for an instant (`DateTime::to_rfc3339`).
pub uninterp spec fn rfc3339_of(ns: i64) -> Seq<char>;

/// Renders an instant with `DateTime::<Utc>::to_rfc3339`, after
/// `DateTime::from_timestamp_nanos`, which takes every `i64`.
#[verifier::external_body]
pub(crate) fn format_rfc3339(ns: i64) -> (r: String)
    ensures
        r@ == rfc3339_of(ns),
{
    chrono::DateTime::from_timestamp_nanos(ns).to_rfc3339()
}

/// The calendar day of an instant as `YYYY-MM-DD`, in UTC.
pub uninterp spec fn day_of(ns: i64) -> Seq<char>;

/// Renders the day of an instant with the `%Y-%m-%d` format of `chrono`.
#[verifier::external_body]
pub(crate) fn format_day(ns: i64) -> (r: String)
    ensures
        r@ == day_of(ns),
{
    chrono::DateTime::from_timestamp_nanos(ns).format("%Y-%m-%d").to_string()
}

/// The instant that an RFC 3339 text denotes, if `chrono` accepts it and the
/// instant fits in nanoseconds.
pub uninterp spec fn rfc3339_instant(text: Seq<char>) -> Option<i64>;

/// Reads an RFC 3339 text with `DateTime::parse_from_rfc3339` and converts
/// it to nanoseconds with `timestamp_nanos_opt`.
#[verifier::external_body]
pub(crate) fn parse_rfc3339(text: &str) -> (r: Option<i64>)
    ensures
        r == rfc3339_instant(text@),
{
    chrono::DateTime::parse_from_rfc3339(text).ok().and_then(|d| d.timestamp_nanos_opt())
}

} // verus!
