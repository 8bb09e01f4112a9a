//! Clock readings as text.
//!
//! The calendar and the formats are chrono's. A clock reading comes in as
//! seconds and nanoseconds since the epoch, so that nothing here asks the
//! machine for the time or for its time zone.

use vstd::prelude::*;

verus! {

/// The text that chrono's `DateTime::to_rfc3339` writes for the instant
/// `secs` seconds and `nanos` nanoseconds after the epoch, in universal time,
/// such as `2025-01-08T09:30:00+00:00`; `None` where
/// `DateTime::from_timestamp` finds the reading out of its range.
pub uninterp spec fn rfc3339_text(secs: u64, nanos: u32) -> Option<Seq<char>>;

/// `chrono::DateTime::to_rfc3339` on the instant that
/// `DateTime::from_timestamp` makes of a clock reading. The contract names
/// the result and says nothing of what it is.
#[verifier::external_body]
pub(crate) fn rfc3339_of(secs: u64, nanos: u32) -> (r: Option<String>)
    ensures
        r.deep_view() == rfc3339_text(secs, nanos),
{
    match chrono::DateTime::from_timestamp(secs as i64, nanos) {
        Some(t) => Some(t.to_rfc3339()),
        None => None,
    }
}

/// The text that chrono's `DateTime::format` writes with the format `fmt`
/// for the instant `secs` seconds after the epoch, on a clock that is
/// `utc_offset_secs` ahead of universal time; `None` where
/// `DateTime::from_timestamp` finds the reading out of its range, or
/// `FixedOffset::east_opt` the offset.
pub uninterp spec fn formatted_time(secs: u64, utc_offset_secs: i32, fmt: Seq<char>) -> Option<
    Seq<char>,
>;

/// The format of a date and a minute, such as `2025-01-08 09:30`.
pub open spec fn minute_format() -> Seq<char> {
    "%Y-%m-%d %H:%M"@
}

/// `chrono::DateTime::format` on the instant that `DateTime::from_timestamp`
/// makes of a clock reading, seen from the offset that
/// `FixedOffset::east_opt` makes of `utc_offset_secs`. The contract names
/// the result and says nothing of what it is. The format is one that chrono
/// knows, so that writing the text cannot fail.
#[verifier::external_body]
pub(crate) fn format_time(secs: u64, utc_offset_secs: i32, fmt: &str) -> (r: Option<String>)
    requires
        fmt@ == minute_format(),
    ensures
        r.deep_view() == formatted_time(secs, utc_offset_secs, fmt@),
{
    match (chrono::DateTime::from_timestamp(secs as i64, 0), chrono::FixedOffset::east_opt(utc_offset_secs)) {
        (Some(t), Some(zone)) => Some(t.with_timezone(&zone).format(fmt).to_string()),
        _ => None,
    }
}

/// A text, or two dashes where there is none.
pub open spec fn text_or_dashes(text: Option<Seq<char>>) -> Seq<char> {
    match text {
        Some(t) => t,
        None => "--"@,
    }
}

/// The text `text`, or two dashes where there is none.
pub fn or_dashes(text: Option<String>) -> (r: String)
    ensures
        r@ == text_or_dashes(text.deep_view()),
{
    match text {
        Some(t) => t,
        None => "--".to_owned(),
    }
}

/// The date and the minute of the clock reading `secs`, on a clock that is
/// `utc_offset_secs` ahead of universal time.
pub fn minute_text(secs: u64, utc_offset_secs: i32) -> (r: Option<String>)
    ensures
        r.deep_view() == formatted_time(secs, utc_offset_secs, minute_format()),
{
    format_time(secs, utc_offset_secs, "%Y-%m-%d %H:%M")
}

} // verus!
