//! Date and timestamp cells as calendar texts.
//!
//! The calendar itself is chrono's; this module decides what is handed to it
//! and what becomes of its answers.

use vstd::prelude::*;
use vstd::string::StringExecFns;
use crate::json::value::{CanonicalValue, ValueView};
use crate::types::data_type::TimeUnit;

verus! {

/// The text of the calendar date that lies `days` days after the date
/// `year`-`month`-`day`; none where either date is outside the calendar.
pub uninterp spec fn calendar_date_text(year: int, month: int, day: int, days: int) -> Option<
    Seq<char>,
>;

/// The text of the calendar date of the instant `millis` milliseconds after
/// 1970-01-01 00:00:00; none where the instant is outside the calendar.
pub uninterp spec fn instant_date_text(millis: int) -> Option<Seq<char>>;

/// The text of the date and time of the instant `secs` seconds and `nanos`
/// nanoseconds after 1970-01-01 00:00:00; none where the instant is outside
/// the calendar or `nanos` is no nanosecond count.
pub uninterp spec fn seconds_datetime_text(secs: int, nanos: int) -> Option<Seq<char>>;

/// The text of the date and time of the instant `millis` milliseconds after
/// 1970-01-01 00:00:00; none where the instant is outside the calendar.
pub uninterp spec fn millis_datetime_text(millis: int) -> Option<Seq<char>>;

/// The text of the date and time of the instant `micros` microseconds after
/// 1970-01-01 00:00:00; none where the instant is outside the calendar.
pub uninterp spec fn micros_datetime_text(micros: int) -> Option<Seq<char>>;

/// Calls `chrono::NaiveDate::from_ymd_opt` for the start date,
/// `NaiveDate::checked_add_signed` with `chrono::Duration::days(days)` on it,
/// and `to_string` on the sum. Each of the first two returns `None` outside
/// the dates that chrono represents, and then so does this function. The
/// text is a function of the four numbers alone; the contract gives it the
/// name `calendar_date_text` and claims no more. `Duration::days` takes any
/// 32-bit count without overflow.
#[verifier::external_body]
pub(crate) fn date_after_days(year: i32, month: u32, day: u32, days: i32) -> (text: Option<String>)
    ensures
        match text {
            Some(s) => calendar_date_text(year as int, month as int, day as int, days as int)
                == Some(s@),
            None => calendar_date_text(year as int, month as int, day as int, days as int)
                is None,
        },
{
    let start = chrono::NaiveDate::from_ymd_opt(year, month, day)?;
    let date = start.checked_add_signed(chrono::Duration::days(days.into()))?;
    Some(date.to_string())
}

/// Calls `chrono::DateTime::from_timestamp_millis`, which returns `None` for
/// an instant outside chrono's range, then takes the UTC date of the instant
/// and calls `to_string` on it. The text is a function of `millis` alone;
/// the contract gives it the name `instant_date_text` and claims no more.
#[verifier::external_body]
pub(crate) fn date_of_millis(millis: i64) -> (text: Option<String>)
    ensures
        match text {
            Some(s) => instant_date_text(millis as int) == Some(s@),
            None => instant_date_text(millis as int) is None,
        },
{
    let instant = chrono::DateTime::from_timestamp_millis(millis)?;
    Some(instant.naive_utc().date().to_string())
}

/// Calls `chrono::DateTime::from_timestamp`, which returns `None` for an
/// instant outside chrono's range or an invalid nanosecond count, then calls
/// `to_string` on the zone-less date and time. The text is a function of the
/// two numbers alone; the contract gives it the name `seconds_datetime_text`
/// and claims no more.
#[verifier::external_body]
pub(crate) fn datetime_of_seconds(secs: i64, nanos: u32) -> (text: Option<String>)
    ensures
        match text {
            Some(s) => seconds_datetime_text(secs as int, nanos as int) == Some(s@),
            None => seconds_datetime_text(secs as int, nanos as int) is None,
        },
{
    let instant = chrono::DateTime::from_timestamp(secs, nanos)?;
    Some(instant.naive_utc().to_string())
}

/// Calls `chrono::DateTime::from_timestamp_millis`, which returns `None` for
/// an instant outside chrono's range, then calls `to_string` on the
/// zone-less date and time. The text is a function of `millis` alone; the
/// contract gives it the name `millis_datetime_text` and claims no more.
#[verifier::external_body]
pub(crate) fn datetime_of_millis(millis: i64) -> (text: Option<String>)
    ensures
        match text {
            Some(s) => millis_datetime_text(millis as int) == Some(s@),
            None => millis_datetime_text(millis as int) is None,
        },
{
    let instant = chrono::DateTime::from_timestamp_millis(millis)?;
    Some(instant.naive_utc().to_string())
}

/// Calls `chrono::DateTime::from_timestamp_micros`, which returns `None` for
/// an instant outside chrono's range, then calls `to_string` on the
/// zone-less date and time. The text is a function of `micros` alone; the
/// contract gives it the name `micros_datetime_text` and claims no more.
#[verifier::external_body]
pub(crate) fn datetime_of_micros(micros: i64) -> (text: Option<String>)
    ensures
        match text {
            Some(s) => micros_datetime_text(micros as int) == Some(s@),
            None => micros_datetime_text(micros as int) is None,
        },
{
    let instant = chrono::DateTime::from_timestamp_micros(micros)?;
    Some(instant.naive_utc().to_string())
}

/// The value of a date cell whose calendar text is `text`: the text, or
/// null where the date is outside the calendar.
pub open spec fn date_view(text: Option<Seq<char>>) -> ValueView {
    match text {
        Some(s) => ValueView::Text(s),
        None => ValueView::Null,
    }
}

/// The value of a date cell, given the calendar's answer for it.
pub fn date_value(text: Option<String>) -> (value: CanonicalValue)
    ensures
        match text {
            Some(s) => value@ == date_view(Some(s@)),
            None => value@ == date_view(None),
        },
        value.wf(),
{
    match text {
        Some(s) => CanonicalValue::Text(s),
        None => CanonicalValue::Null,
    }
}

/// The value of a cell that holds `days` days since 1970-01-01.
pub open spec fn date32_view(days: i32) -> ValueView {
    date_view(calendar_date_text(1970, 1, 1, days as int))
}

/// The value of a cell that holds `millis` milliseconds since 1970-01-01:
/// the date of that instant, without its time of day.
pub open spec fn date64_view(millis: i64) -> ValueView {
    date_view(instant_date_text(millis as int))
}

/// Converts a cell that holds days since 1970-01-01.
pub fn date32_value(days: i32) -> (value: CanonicalValue)
    ensures
        value@ == date32_view(days),
        value.wf(),
{
    date_value(date_after_days(1970, 1, 1, days))
}

/// Converts a cell that holds milliseconds since 1970-01-01.
pub fn date64_value(millis: i64) -> (value: CanonicalValue)
    ensures
        value@ == date64_view(millis),
        value.wf(),
{
    date_value(date_of_millis(millis))
}

/// The whole seconds of a nanosecond count: the count divided by a billion
/// and rounded down, before the epoch as after it.
pub open spec fn nanos_seconds(nanos: int) -> int {
    nanos / 1_000_000_000
}

/// The nanoseconds that a count has beyond its whole seconds: from zero up
/// to a billion less one, before the epoch as after it.
pub open spec fn nanos_fraction(nanos: int) -> int {
    nanos % 1_000_000_000
}

/// The whole seconds and the fraction of a nanosecond count make it up, and
/// the fraction is a nanosecond count within a second.
pub proof fn lemma_nanos_split(nanos: int)
    ensures
        nanos == nanos_seconds(nanos) * 1_000_000_000 + nanos_fraction(nanos),
        0 <= nanos_fraction(nanos) < 1_000_000_000,
{
}

/// Splits a nanosecond count into whole seconds, rounded down, and the
/// nanoseconds beyond them.
pub fn split_nanos(nanos: i64) -> (parts: (i64, u32))
    ensures
        parts.0 == nanos_seconds(nanos as int),
        parts.1 == nanos_fraction(nanos as int),
{
    let secs: i64 = nanos / 1_000_000_000;
    let rest: i64 = nanos % 1_000_000_000;
    if rest >= 0 {
        (secs, rest as u32)
    } else {
        (secs - 1, (rest + 1_000_000_000) as u32)
    }
}

/// The calendar's text for a timestamp of the given unit.
pub open spec fn timestamp_datetime_text(unit: TimeUnit, value: i64) -> Option<Seq<char>> {
    match unit {
        TimeUnit::Second => seconds_datetime_text(value as int, 0),
        TimeUnit::Millisecond => millis_datetime_text(value as int),
        TimeUnit::Microsecond => micros_datetime_text(value as int),
        TimeUnit::Nanosecond => seconds_datetime_text(
            nanos_seconds(value as int),
            nanos_fraction(value as int),
        ),
    }
}

/// The text of a timestamp cell, from the calendar's text for its instant
/// and the time zone label of its column: the calendar's text, or
/// `InvalidTimestamp` where the calendar has none, and after it, where the
/// column has a label, a space and the label. The label does not move the
/// instant.
pub open spec fn timestamp_text(datetime: Option<Seq<char>>, zone: Option<Seq<char>>) -> Seq<char> {
    let shown = match datetime {
        Some(s) => s,
        None => "InvalidTimestamp"@,
    };
    match zone {
        Some(z) => shown + " "@ + z,
        None => shown,
    }
}

/// What a timestamp cell converts to.
pub open spec fn timestamp_view(unit: TimeUnit, zone: Option<String>, value: i64) -> ValueView {
    ValueView::Text(
        timestamp_text(
            timestamp_datetime_text(unit, value),
            match zone {
                Some(z) => Some(z@),
                None => None,
            },
        ),
    )
}

/// The text of a timestamp cell, given the calendar's answer for its
/// instant and the time zone label of its column.
pub fn label_timestamp(datetime: Option<String>, zone: &Option<String>) -> (text: String)
    ensures
        text@ == timestamp_text(
            match datetime {
                Some(s) => Some(s@),
                None => None,
            },
            match *zone {
                Some(z) => Some(z@),
                None => None,
            },
        ),
{
    let shown = match datetime {
        Some(s) => s,
        None => "InvalidTimestamp".to_owned(),
    };
    match zone {
        Some(z) => shown.concat(" ").concat(z.as_str()),
        None => shown,
    }
}

/// Converts a timestamp cell.
pub fn timestamp_value(unit: TimeUnit, zone: &Option<String>, value: i64) -> (converted:
    CanonicalValue)
    ensures
        converted@ == timestamp_view(unit, *zone, value),
        converted.wf(),
{
    let datetime = match unit {
        TimeUnit::Second => datetime_of_seconds(value, 0),
        TimeUnit::Millisecond => datetime_of_millis(value),
        TimeUnit::Microsecond => datetime_of_micros(value),
        TimeUnit::Nanosecond => {
            let (secs, nanos) = split_nanos(value);
            datetime_of_seconds(secs, nanos)
        },
    };
    CanonicalValue::Text(label_timestamp(datetime, zone))
}

} // verus!
