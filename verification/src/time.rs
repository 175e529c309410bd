//! UTC instants as whole seconds since the Unix epoch, and their text forms.

use chrono::TimeZone;
use vstd::prelude::*;

verus! {

/// Instants that the time library can hold (a bound well inside its range of
/// about 262 000 years on either side of the epoch).
pub open spec fn representable_time(t: i64) -> bool {
    -8_000_000_000_000 <= t <= 8_000_000_000_000
}

/// The instants chrono's `DateTime` can hold (years 262 144 BCE to
/// 262 143 CE), in whole seconds, with room to spare.
pub open spec fn chrono_range(t: i64) -> bool {
    -8_400_000_000_000 <= t <= 8_400_000_000_000
}

/// `%Y-%m-%dT%H:%M:%SZ` rendering of the instant `t`, as chrono formats it.
pub uninterp spec fn utc_seconds_text(t: i64) -> Seq<char>;

/// RFC 3339 rendering of the instant `t` (`+00:00` offset), as chrono's
/// `DateTime::<Utc>::to_rfc3339` writes it.
pub uninterp spec fn rfc3339_text(t: i64) -> Seq<char>;

/// `%H:%M:%S UTC` rendering of the instant `t`, as chrono formats it.
pub uninterp spec fn utc_clock_text(t: i64) -> Seq<char>;

/// The instant that an RFC 3339 text denotes, in whole seconds, as chrono's
/// `DateTime::parse_from_rfc3339` reads it; `None` when chrono rejects the text.
pub uninterp spec fn rfc3339_instant(text: Seq<char>) -> Option<i64>;

/// The instant that an RFC 2822 text denotes, in whole seconds, as chrono's
/// `DateTime::parse_from_rfc2822` reads it; `None` when chrono rejects the text.
pub uninterp spec fn rfc2822_instant(text: Seq<char>) -> Option<i64>;

/// Whether chrono's `Utc.timestamp_opt(t, 0)` yields a single instant.
pub uninterp spec fn utc_timestamp_valid(t: i64) -> bool;

/// Renders `t` with chrono's `%Y-%m-%dT%H:%M:%SZ` format.
#[verifier::external_body]
pub(crate) fn format_utc_seconds(t: i64) -> (r: String)
    requires
        representable_time(t),
    ensures
        r@ == utc_seconds_text(t),
{
    chrono::DateTime::<chrono::Utc>::from_timestamp(t, 0).map(|d| d.format("%Y-%m-%dT%H:%M:%SZ").to_string()).unwrap_or_default()
}

/// Renders `t` with chrono's `to_rfc3339`.
#[verifier::external_body]
pub(crate) fn format_rfc3339(t: i64) -> (r: String)
    requires
        representable_time(t),
    ensures
        r@ == rfc3339_text(t),
{
    chrono::DateTime::<chrono::Utc>::from_timestamp(t, 0).map(|d| d.to_rfc3339()).unwrap_or_default()
}

/// Renders `t` with chrono's `%H:%M:%S UTC` format.
#[verifier::external_body]
pub(crate) fn format_utc_clock(t: i64) -> (r: String)
    requires
        representable_time(t),
    ensures
        r@ == utc_clock_text(t),
{
    chrono::DateTime::<chrono::Utc>::from_timestamp(t, 0).map(|d| d.format("%H:%M:%S UTC").to_string()).unwrap_or_default()
}

/// Reads an RFC 3339 timestamp with chrono (sub-second digits are dropped);
/// what it reads lies in chrono's range of instants.
#[verifier::external_body]
pub(crate) fn parse_rfc3339_seconds(text: &str) -> (r: Option<i64>)
    ensures
        r == rfc3339_instant(text@),
        r matches Some(t) ==> chrono_range(t),
{
    chrono::DateTime::parse_from_rfc3339(text).ok().map(|d| d.timestamp())
}

/// Reads an RFC 2822 timestamp with chrono (sub-second digits are dropped);
/// what it reads lies in chrono's range of instants.
#[verifier::external_body]
pub(crate) fn parse_rfc2822_seconds(text: &str) -> (r: Option<i64>)
    ensures
        r == rfc2822_instant(text@),
        r matches Some(t) ==> chrono_range(t),
{
    chrono::DateTime::parse_from_rfc2822(text).ok().map(|d| d.timestamp())
}

/// Whether chrono accepts `t` as a UTC instant; it does for every
/// representable instant.
#[verifier::external_body]
pub(crate) fn utc_timestamp_is_valid(t: i64) -> (r: bool)
    ensures
        r == utc_timestamp_valid(t),
        representable_time(t) ==> r,
{
    chrono::Utc.timestamp_opt(t, 0).single().is_some()
}

} // verus!
