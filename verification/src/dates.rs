//! Dates as feeds write them and as pages show them. Times are whole
//! seconds since the epoch.

use std::fmt::Write;
use vstd::prelude::*;

verus! {

/// The time that a text gives when read as an RFC 2822 date by
/// `chrono::DateTime::parse_from_rfc2822`, in seconds since the epoch; none
/// where the text is no such date.
pub uninterp spec fn rfc2822_seconds(text: Seq<char>) -> Option<i64>;

/// The time that a text gives when read as an RFC 3339 date by
/// `chrono::DateTime::parse_from_rfc3339`, in seconds since the epoch; none
/// where the text is no such date.
pub uninterp spec fn rfc3339_seconds(text: Seq<char>) -> Option<i64>;

/// The time that a text gives when read as an HTTP date by
/// `httpdate::parse_http_date`; none where the text is no such date.
pub uninterp spec fn http_date(text: Seq<char>) -> Option<std::time::SystemTime>;

/// A time written as `chrono` writes it in UTC with a format; none where
/// `chrono` cannot write the time with the format.
pub uninterp spec fn formatted_utc(seconds: u32, format: Seq<char>) -> Option<Seq<char>>;

/// A span of seconds, negative for the past, in the words that
/// `time_humanize::HumanTime` finds for it.
pub uninterp spec fn humanized(seconds: i64) -> Seq<char>;

/// Calls `chrono::DateTime::parse_from_rfc2822` and takes the timestamp of
/// the date that it reads.
#[verifier::external_body]
fn parse_rfc2822(text: &str) -> (r: Option<i64>)
    ensures
        r == rfc2822_seconds(text@),
{
    chrono::DateTime::parse_from_rfc2822(text).ok().map(|date| date.timestamp())
}

/// Calls `chrono::DateTime::parse_from_rfc3339` and takes the timestamp of
/// the date that it reads.
#[verifier::external_body]
fn parse_rfc3339(text: &str) -> (r: Option<i64>)
    ensures
        r == rfc3339_seconds(text@),
{
    chrono::DateTime::parse_from_rfc3339(text).ok().map(|date| date.timestamp())
}

/// Calls `httpdate::parse_http_date`.
#[verifier::external_body]
fn parse_http(text: &str) -> (r: Option<std::time::SystemTime>)
    ensures
        r == http_date(text@),
{
    httpdate::parse_http_date(text).ok()
}

/// Calls `chrono::DateTime::from_timestamp` and `format` on the date, and
/// writes the result out; there is none where either fails.
#[verifier::external_body]
fn format_utc(seconds: u32, format: &str) -> (r: Option<String>)
    ensures
        r is Some <==> formatted_utc(seconds, format@) is Some,
        r matches Some(text) ==> formatted_utc(seconds, format@) == Some(text@),
{
    let date = chrono::DateTime::from_timestamp(seconds.into(), 0)?;
    let mut text = String::new();
    write!(text, "{}", date.format(format)).ok()?;
    Some(text)
}

/// Makes a `time_humanize::HumanTime` from a span of seconds and writes it
/// out.
#[verifier::external_body]
fn humanize(seconds: i64) -> (r: String)
    ensures
        r@ == humanized(seconds),
{
    time_humanize::HumanTime::from(seconds).to_string()
}

/// The date that a feed gives for an item: the text read as an RFC 2822
/// date, or else as an RFC 3339 date; none where it is neither.
pub open spec fn feed_date(text: Seq<char>) -> Option<i64> {
    match rfc2822_seconds(text) {
        Some(seconds) => Some(seconds),
        None => rfc3339_seconds(text),
    }
}

/// Reads the date of a feed item.
pub fn parse_date(date: &str) -> (r: Option<i64>)
    ensures
        r == feed_date(date@),
{
    match parse_rfc2822(date) {
        Some(seconds) => Some(seconds),
        None => parse_rfc3339(date),
    }
}

/// The date of an HTTP header, in seconds since the epoch; none where the
/// text is no HTTP date.
pub open spec fn http_seconds(text: Seq<char>) -> Option<u64> {
    match http_date(text) {
        Some(time) => Some(crate::utils::seconds_or_zero(time)),
        None => None,
    }
}

/// Reads a date in the format of HTTP headers.
pub fn parse_http_date(date: &str) -> (r: Option<u64>)
    ensures
        r == http_seconds(date@),
{
    match parse_http(date) {
        Some(time) => Some(crate::utils::seconds_of(&time)),
        None => None,
    }
}

/// A clock reading as a signed number of seconds: the reading itself, as
/// far as it fits.
pub open spec fn signed_seconds(now: u64) -> i64 {
    if now > i64::MAX {
        i64::MAX
    } else {
        now as i64
    }
}

/// Makes a clock reading a signed number.
pub fn to_signed(now: u64) -> (r: i64)
    ensures
        r == signed_seconds(now),
        r >= 0,
{
    if now > i64::MAX as u64 {
        i64::MAX
    } else {
        now as i64
    }
}

/// The date that is stored for a feed item: the date that the feed gives,
/// not before the epoch; and the time of reading where the feed gives
/// none, or one that cannot be read.
pub open spec fn stored_date(given: Option<i64>, now: u64) -> i64 {
    match given {
        Some(seconds) => if seconds < 0 {
            0
        } else {
            seconds
        },
        None => signed_seconds(now),
    }
}

/// Settles the date that is stored for a feed item.
pub fn settle_date(given: Option<i64>, now: u64) -> (r: i64)
    ensures
        r == stored_date(given, now),
        r >= 0,
{
    match given {
        Some(seconds) => if seconds < 0 {
            0
        } else {
            seconds
        },
        None => to_signed(now),
    }
}

/// A date as a page shows it: year, month, day, hour, minute and second,
/// in UTC; empty where the date cannot be written so.
pub open spec fn shown_date(date_time: u32) -> Seq<char> {
    match formatted_utc(date_time, "%Y-%m-%d %H:%M:%S"@) {
        Some(text) => text,
        None => Seq::empty(),
    }
}

/// The date of an article as a page shows it, in UTC.
pub fn format_date(date_time: u32) -> (r: String)
    ensures
        r@ == shown_date(date_time),
{
    match format_utc(date_time, "%Y-%m-%d %H:%M:%S") {
        Some(text) => text,
        None => String::new(),
    }
}

/// How long ago an article was found, in words, for a reader at time
/// `now`.
pub fn format_ago(date_time: u32, now: u64) -> (r: String)
    ensures
        r@ == humanized((date_time - signed_seconds(now)) as i64),
{
    let then: i64 = date_time as i64;
    humanize(then - to_signed(now))
}

} // verus!
