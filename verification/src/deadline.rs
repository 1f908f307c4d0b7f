//! Timestamps, review deadlines and clock readings.

use vstd::prelude::*;

use crate::json;
use crate::json::{Json, JsonView};
use crate::text;
use crate::text::{parse_i64, trim};

verus! {

/// How long a deliverable stays open for review: three days.
pub const REVIEW_WINDOW_SECONDS: i64 = 259_200;

/// Timestamps beyond this magnitude count milliseconds.
pub const SECONDS_LIMIT: i64 = 10_000_000_000;

/// The format of a local time with its offset from UTC.
pub const LOCAL_TIME_FORMAT: &'static str = "%Y-%m-%d %H:%M:%S %:z";

/// The first second that has a local date: the year -262143 begins in UTC.
pub const FIRST_DATED_SECOND: i64 = -8_334_601_228_800;

/// The last second that has a local date: the year 262142 ends in UTC.
pub const LAST_DATED_SECOND: i64 = 8_210_266_876_799;

/// A timestamp in whole seconds: milliseconds are cut off, towards zero. The
/// least `i64` has no magnitude in its range and is left as it is.
pub open spec fn in_seconds(raw: i64) -> i64 {
    if raw > SECONDS_LIMIT {
        (raw as int / 1000) as i64
    } else if i64::MIN < raw < -SECONDS_LIMIT {
        (-((-raw) / 1000)) as i64
    } else {
        raw
    }
}

/// A timestamp in whole seconds.
pub fn to_seconds(raw: i64) -> (r: i64)
    ensures
        r == in_seconds(raw),
{
    if raw > SECONDS_LIMIT {
        raw / 1000
    } else if raw != i64::MIN && raw < -SECONDS_LIMIT {
        let magnitude: i64 = -raw;
        -(magnitude / 1000)
    } else {
        raw
    }
}

/// The seconds of a timestamp text, white space around it aside.
pub open spec fn timestamp_of(raw: Seq<char>) -> Option<i64> {
    match text::written_i64(text::trimmed(raw)) {
        Some(n) => Some(in_seconds(n)),
        None => None,
    }
}

/// The seconds of an optional timestamp text.
pub open spec fn opt_timestamp(raw: Option<Seq<char>>) -> Option<i64> {
    match raw {
        Some(t) => timestamp_of(t),
        None => None,
    }
}

/// Reads a timestamp text in seconds or milliseconds.
pub fn parse_timestamp_seconds(raw: &str) -> (r: Option<i64>)
    ensures
        r == timestamp_of(raw@),
{
    match parse_i64(trim(raw)) {
        Some(n) => Some(to_seconds(n)),
        None => None,
    }
}

/// Reads an optional timestamp text in seconds or milliseconds.
pub fn parse_optional_timestamp(raw: Option<&str>) -> (r: Option<i64>)
    ensures
        r == opt_timestamp(text::opt_str_view(raw)),
{
    match raw {
        Some(t) => parse_timestamp_seconds(t),
        None => None,
    }
}

/// The timestamp under a key.
pub open spec fn timestamp_at(detail: JsonView, key: Seq<char>) -> Option<i64> {
    opt_timestamp(json::text_at(detail, key))
}

/// The timestamp under a key.
pub fn timestamp_field(detail: &Json, key: &str) -> (r: Option<i64>)
    ensures
        r == timestamp_at(detail@, key@),
{
    match detail.text_at(key) {
        Some(t) => parse_timestamp_seconds(t.as_str()),
        None => None,
    }
}

/// The seconds of a subscription timestamp: the text must write the number and
/// nothing else.
pub open spec fn exact_timestamp_of(raw: Option<Seq<char>>) -> Option<i64> {
    match raw {
        Some(t) => match text::written_i64(t) {
            Some(n) => Some(in_seconds(n)),
            None => None,
        },
        None => None,
    }
}

/// Reads a subscription timestamp in seconds or milliseconds.
pub fn timestamp_seconds(value: Option<&str>) -> (r: Option<i64>)
    ensures
        r == exact_timestamp_of(text::opt_str_view(value)),
{
    match value {
        Some(t) => match parse_i64(t) {
            Some(n) => Some(to_seconds(n)),
            None => None,
        },
        None => None,
    }
}

/// Whether a subscription timestamp is there and not after `now`.
pub open spec fn has_passed(value: Option<Seq<char>>, now: i64) -> bool {
    exact_timestamp_of(value) matches Some(seconds) && now >= seconds
}

/// Whether a subscription timestamp is there and after `now`.
pub open spec fn is_future(value: Option<Seq<char>>, now: i64) -> bool {
    exact_timestamp_of(value) matches Some(seconds) && now < seconds
}

/// Whether a subscription timestamp is there and not after `now`.
pub fn timestamp_has_passed(value: Option<&str>, now: i64) -> (r: bool)
    ensures
        r == has_passed(text::opt_str_view(value), now),
{
    match timestamp_seconds(value) {
        Some(seconds) => now >= seconds,
        None => false,
    }
}

/// Whether a subscription timestamp is there and after `now`.
pub fn timestamp_is_future(value: Option<&str>, now: i64) -> (r: bool)
    ensures
        r == is_future(text::opt_str_view(value), now),
{
    match timestamp_seconds(value) {
        Some(seconds) => now < seconds,
        None => false,
    }
}

/// `chrono::Utc::now` with `timestamp`: the current time in seconds since 1970.
/// Nothing is claimed of the reading: it rests on the clock of the machine.
#[verifier::external_body]
pub(crate) fn utc_now_seconds() -> (r: i64) {
    chrono::Utc::now().timestamp()
}

/// A character of the text of an instant.
pub open spec fn is_instant_char(c: char) -> bool {
    text::is_digit(c) || c == '-' || c == '+' || c == ':' || c == '.' || c == 'T'
}

/// The text of an instant: one line of digits, signs, colons, points and a `T`.
pub open spec fn is_instant_text(s: Seq<char>) -> bool {
    s.len() > 0 && forall|i: int| 0 <= i < s.len() ==> is_instant_char(#[trigger] s[i])
}

/// `chrono::Utc::now` with `to_rfc3339`: the current time as a text of digits,
/// signs, colons, points and a `T`. Which time it is rests on the clock of the
/// machine and is not stated.
#[verifier::external_body]
pub(crate) fn utc_now_text() -> (r: String)
    ensures
        is_instant_text(r@),
{
    chrono::Utc::now().to_rfc3339()
}

/// A character of a local time text.
pub open spec fn is_time_char(c: char) -> bool {
    text::is_digit(c) || c == '-' || c == '+' || c == ':' || c == ' '
}

/// A local time text: one line of digits, signs, colons and spaces.
pub open spec fn is_time_text(s: Seq<char>) -> bool {
    s.len() > 0 && forall|i: int| 0 <= i < s.len() ==> is_time_char(#[trigger] s[i])
}

/// A second that has a local date.
pub open spec fn is_dated(seconds: i64) -> bool {
    FIRST_DATED_SECOND <= seconds <= LAST_DATED_SECOND
}

/// An offset from UTC, in seconds: less than a day either way.
pub open spec fn is_offset(offset: i32) -> bool {
    -86_400 < offset < 86_400
}

/// The text of a second at an offset from UTC, as `chrono` writes it in a format.
pub uninterp spec fn formatted_time(seconds: i64, offset: i32, format: Seq<char>) -> Seq<char>;

/// `chrono::Local` with `TimeZone::timestamp_opt` and `FixedOffset::local_minus_utc`:
/// the offset of the local time from UTC at a second. It is there just for the
/// seconds of the dates that `chrono` has, from the year -262143 to the year
/// 262142, and is less than a day. Which offset it is rests on the time zone of
/// the machine and is not stated.
#[verifier::external_body]
fn local_offset(seconds: i64) -> (r: Option<i32>)
    ensures
        r is Some <==> is_dated(seconds),
        r matches Some(offset) ==> is_offset(offset),
{
    chrono::TimeZone::timestamp_opt(&chrono::Local, seconds, 0).single().map(
        |time| time.offset().local_minus_utc(),
    )
}

/// `chrono::FixedOffset::east_opt` with `TimeZone::timestamp_opt` and
/// `DateTime::format`: the text of a second at an offset from UTC. It is there
/// just for the seconds of the dates that `chrono` has, is named by
/// `formatted_time`, and in the one format used here holds digits, signs, colons
/// and spaces.
#[verifier::external_body]
fn time_at_offset(seconds: i64, offset: i32, format: &str) -> (r: Option<String>)
    requires
        is_offset(offset),
        format@ == LOCAL_TIME_FORMAT@,
    ensures
        r is Some <==> is_dated(seconds),
        r matches Some(time) ==> time@ == formatted_time(seconds, offset, format@)
            && is_time_text(time@),
{
    chrono::FixedOffset::east_opt(offset).and_then(
        |zone| chrono::TimeZone::timestamp_opt(&zone, seconds, 0).single(),
    ).map(|time| time.format(format).to_string())
}

/// Whether a text is that of a second, at some offset from UTC.
pub open spec fn is_text_of(time: Seq<char>, seconds: i64) -> bool {
    is_time_text(time) && exists|offset: i32|
        is_offset(offset) && time == #[trigger] formatted_time(
            seconds,
            offset,
            LOCAL_TIME_FORMAT@,
        )
}

/// Formats a second as the time at an offset from UTC, if it has a date.
pub fn format_timestamp_at_offset(seconds: i64, offset: i32) -> (r: Option<String>)
    requires
        is_offset(offset),
    ensures
        r is Some <==> is_dated(seconds),
        r matches Some(time) ==> time@ == formatted_time(seconds, offset, LOCAL_TIME_FORMAT@)
            && is_time_text(time@),
{
    time_at_offset(seconds, offset, LOCAL_TIME_FORMAT)
}

/// Formats a second as local time with its offset, if it has a date.
pub fn format_local_timestamp_with_offset(seconds: i64) -> (r: Option<String>)
    ensures
        r is Some <==> is_dated(seconds),
        r matches Some(time) ==> is_text_of(time@, seconds),
{
    match local_offset(seconds) {
        Some(offset) => format_timestamp_at_offset(seconds, offset),
        None => None,
    }
}

/// Whether a timestamp text has a local time.
pub open spec fn has_time(value: Option<Seq<char>>) -> bool {
    opt_timestamp(value) matches Some(seconds) && is_dated(seconds)
}

/// The local time of a timestamp text, as any time zone may write it.
pub open spec fn is_time_of(time: Option<Seq<char>>, value: Option<Seq<char>>) -> bool {
    &&& time is Some <==> has_time(value)
    &&& time matches Some(t) ==> is_text_of(t, opt_timestamp(value)->0)
}

/// The local time of an optional timestamp text, if it writes a dated second.
pub fn format_timestamp(value: Option<&str>) -> (r: Option<String>)
    ensures
        is_time_of(text::opt_view(r), text::opt_str_view(value)),
{
    match parse_optional_timestamp(value) {
        Some(seconds) => format_local_timestamp_with_offset(seconds),
        None => None,
    }
}

} // verus!
