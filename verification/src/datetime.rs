//! The calendar library behind timestamps.
//!
//! Reading a date-time from text and writing a time of day as text are left
//! to `chrono`. Nothing here is proved: each function below states what the
//! crate takes on trust about one call, and the rest of the crate is proved
//! from those statements alone.

use chrono::{DateTime, TimeZone, Utc};
use vstd::prelude::*;

verus! {

/// `chrono::ParseError`, the reason a text is no date-time. Carried, never read.
#[verifier::external_type_specification]
#[verifier::external_body]
pub struct ExParseError(chrono::ParseError);

/// The instant that `TimeZone::datetime_from_str`, called on `Utc`, reads
/// from `text` under the pattern `format`: whole non-leap seconds since
/// 1970-01-01T00:00:00Z and the nanoseconds since the last of them. `None`
/// where it reads none.
pub uninterp spec fn utc_datetime(text: Seq<char>, format: Seq<char>) -> Option<(i64, u32)>;

/// Whether `DateTime::from_timestamp` makes an instant of `secs` and
/// `nanos`: whether the day lies within the calendar that `chrono` covers
/// and the nanoseconds are those of a second, or of a leap second.
pub uninterp spec fn utc_instant_exists(secs: i64, nanos: u32) -> bool;

/// The pattern under which a time of day is written: `HH:MM:SS.mmm`.
pub const CLOCK_FORMAT: &'static str = "%H:%M:%S%.3f";

/// The character of one decimal digit.
pub open spec fn digit(d: int) -> char {
    seq!['0', '1', '2', '3', '4', '5', '6', '7', '8', '9'][d]
}

/// A number below a hundred in two digits.
pub open spec fn two_digits(v: int) -> Seq<char> {
    seq![digit(v / 10), digit(v % 10)]
}

/// A number below a thousand in three digits.
pub open spec fn three_digits(v: int) -> Seq<char> {
    seq![digit(v / 100), digit(v / 10 % 10), digit(v % 10)]
}

/// The time of day, in UTC, of the instant `secs` and `nanos`, written as
/// `HH:MM:SS.mmm`. Within a leap second, which `nanos` of a thousand million
/// and more stand for, the seconds read 60. Milliseconds are cut, not rounded.
pub open spec fn clock_digits(secs: int, nanos: int) -> Seq<char> {
    let of_day = secs % 86_400;
    two_digits(of_day / 3_600) + seq![':'] + two_digits(of_day / 60 % 60) + seq![':'] + two_digits(
        of_day % 60 + nanos / 1_000_000_000,
    ) + seq!['.'] + three_digits(nanos / 1_000_000 % 1_000)
}

/// Calls `Utc.datetime_from_str(text, format)` and hands out the instant as
/// `DateTime::timestamp` and `DateTime::timestamp_subsec_nanos` give it.
///
/// Taken on trust: the call reads the same instant from the same two texts
/// every time, which is what [`utc_datetime`] names; it reports a text that
/// does not fit by an error, not by a panic; and `DateTime::from_timestamp`
/// makes the instant again from the two numbers handed out, as its
/// documentation guarantees.
#[allow(deprecated)]
#[verifier::external_body]
pub(crate) fn parse_utc(text: &str, format: &str) -> (r: Result<(i64, u32), chrono::ParseError>)
    ensures
        r is Ok <==> utc_datetime(text@, format@) is Some,
        r matches Ok(at) ==> utc_datetime(text@, format@) == Some(at) && utc_instant_exists(
            at.0,
            at.1,
        ),
{
    let at = Utc.datetime_from_str(text, format)?;
    Ok((at.timestamp(), at.timestamp_subsec_nanos()))
}

/// Calls `DateTime::from_timestamp(secs, nanos)` and writes the instant with
/// `DateTime::format(format)`, for the one pattern [`CLOCK_FORMAT`].
///
/// Taken on trust: there is a text exactly when there is such an instant,
/// which [`utc_instant_exists`] names; and under this pattern `chrono`
/// writes the hour, the minute and the second in two digits each and the
/// milliseconds in three, as [`clock_digits`] spells out.
#[verifier::external_body]
pub(crate) fn format_utc(secs: i64, nanos: u32, format: &str) -> (r: Option<String>)
    requires
        format@ == CLOCK_FORMAT@,
    ensures
        r is Some <==> utc_instant_exists(secs, nanos),
        r matches Some(text) ==> text@ == clock_digits(secs as int, nanos as int),
{
    let at = DateTime::from_timestamp(secs, nanos)?;
    Some(at.format(format).to_string())
}

} // verus!
