//! Dates and times: date parsing is done by the `chrono` crate, the clock
//! is read from `std::time`.  A date is held as whole
//! seconds since 1970-01-01 00:00:00 (UTC, without time zone).
use vstd::prelude::*;

verus! {

/// The date that `chrono::NaiveDateTime::parse_from_str` reads from `text`
/// with the format `format`, in seconds since 1970-01-01 00:00:00; `None`
/// where the text does not match the format or names no valid date.
pub uninterp spec fn naive_datetime_seconds(text: Seq<char>, format: Seq<char>) -> Option<int>;

/// Trusted: calls `chrono::NaiveDateTime::parse_from_str(text, format)` and
/// converts a parsed date with `and_utc().timestamp()`.  The contract only
/// names the result (`naive_datetime_seconds`): the parsing is chrono's.
#[verifier::external_body]
pub(crate) fn parse_datetime_seconds(text: &str, format: &str) -> (res: Option<i64>)
    ensures
        match res {
            Some(v) => naive_datetime_seconds(text@, format@) == Some(v as int),
            None => naive_datetime_seconds(text@, format@) is None,
        },
{
    match chrono::NaiveDateTime::parse_from_str(text, format) {
        Ok(date) => Some(date.and_utc().timestamp()),
        Err(_) => None,
    }
}

/// How `chrono` prints the date `seconds` seconds after 1970-01-01 00:00:00,
/// with `NaiveDateTime`'s `Display` (year, month, day, then the time);
/// `None` where the date is outside chrono's range.
pub uninterp spec fn naive_datetime_text(seconds: int) -> Option<Seq<char>>;

/// Trusted: `chrono::DateTime::from_timestamp(seconds, 0)`, whose result is
/// `None` outside chrono's range of dates, then `naive_utc()` written with
/// `to_string()`.  The contract only names the result
/// (`naive_datetime_text`): the calendar arithmetic is chrono's.
#[verifier::external_body]
pub(crate) fn datetime_text(seconds: i64) -> (res: Option<String>)
    ensures
        match res {
            Some(text) => naive_datetime_text(seconds as int) == Some(text@),
            None => naive_datetime_text(seconds as int) is None,
        },
{
    match chrono::DateTime::from_timestamp(seconds, 0) {
        Some(date) => Some(date.naive_utc().to_string()),
        None => None,
    }
}

/// Trusted: the current time in whole seconds since 1970-01-01 00:00:00 UTC,
/// from `std::time::SystemTime::now().duration_since(UNIX_EPOCH)`; a clock set
/// before 1970 gives the negated distance to 1970 instead of an error.
/// Nothing is stated of the result: it depends on the clock.
#[verifier::external_body]
pub(crate) fn now_seconds() -> (res: i64) {
    match std::time::SystemTime::now().duration_since(std::time::UNIX_EPOCH) {
        Ok(elapsed) => elapsed.as_secs() as i64,
        Err(before) => (before.duration().as_secs() as i64).wrapping_neg(),
    }
}

} // verus!
