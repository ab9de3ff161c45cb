//! Instants as microseconds since the Unix epoch, and their RFC 3339 texts.
use vstd::prelude::*;

verus! {

/// The instant that an RFC 3339 text denotes, in microseconds since the Unix
/// epoch, or `None` when the text is no RFC 3339 date-time.
pub uninterp spec fn rfc3339_instant(s: Seq<char>) -> Option<i64>;

/// The RFC 3339 text, in UTC with microseconds, of an instant given in
/// microseconds since the Unix epoch, or `None` when it is out of range.
pub uninterp spec fn rfc3339_text(micros: i64) -> Option<Seq<char>>;

/// Relies on chrono's `DateTime::parse_from_rfc3339` (then `timestamp_micros`):
/// the result depends on the text alone.
#[verifier::external_body]
pub(crate) fn parse_rfc3339(s: &str) -> (r: Option<i64>)
    ensures
        r == rfc3339_instant(s@),
{
    chrono::DateTime::parse_from_rfc3339(s).ok().map(|t| t.timestamp_micros())
}

/// Relies on chrono's `DateTime::from_timestamp_micros` (then
/// `to_rfc3339_opts` with microseconds and `Z`): the result depends on the
/// instant alone.
#[verifier::external_body]
pub(crate) fn format_rfc3339(micros: i64) -> (r: Option<String>)
    ensures
        r is Some == rfc3339_text(micros) is Some,
        r matches Some(t) ==> rfc3339_text(micros) == Some(t@),
{
    chrono::DateTime::from_timestamp_micros(micros).map(
        |t| t.to_rfc3339_opts(chrono::SecondsFormat::Micros, true),
    )
}

/// The instant that an RFC 3339 text denotes, in microseconds since the
/// Unix epoch.
pub fn instant_of(text: &str) -> (r: Option<i64>)
    ensures
        r == rfc3339_instant(text@),
{
    parse_rfc3339(text)
}

/// The RFC 3339 text, in UTC with microseconds, of an instant.
pub fn text_of(micros: i64) -> (r: Option<String>)
    ensures
        r is Some == rfc3339_text(micros) is Some,
        r matches Some(t) ==> rfc3339_text(micros) == Some(t@),
{
    format_rfc3339(micros)
}

/// Microseconds in one second.
pub const MICROS_PER_SECOND: i64 = 1_000_000;

} // verus!
