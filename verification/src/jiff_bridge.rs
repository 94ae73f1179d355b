//! The calls this library makes into the `jiff` date and time crate.
//!
//! Each function here is trusted: Verus takes its contract as given. The
//! contracts restate what jiff's source does, in terms of the plain-integer
//! models of `sql_types`: a `jiff::SignedDuration` and a `jiff::Timestamp` are
//! both a count of nanoseconds held as balanced (seconds, nanoseconds) parts.
use vstd::prelude::*;

use crate::sql_types::{
    civil_fields_valid, civil_nanos, civil_time_nanos, max_civil_nanos, max_instant_nanos, min_civil_nanos,
    min_instant_nanos, CivilDateTime, minutes_span, pg_units_span, tdiv, Instant, SignedDuration, Span, MAX_UNIX_SECOND,
    MIN_UNIX_SECOND, NANOS_PER_CIVIL_DAY,
};

verus! {

/// Calls `jiff::SignedDuration::new(secs, nanos)`, which balances nanoseconds
/// of a second or more into the seconds and gives both parts one sign. It
/// panics only when the carried seconds overflow an `i64`, which `requires`
/// rules out.
#[verifier::external_body]
pub(crate) fn jiff_signed_duration_new(secs: i64, nanos: i32) -> (duration: SignedDuration)
    requires
        i64::MIN <= secs + tdiv(nanos as int, 1_000_000_000) <= i64::MAX,
    ensures
        duration.wf(),
        duration.total_nanos() == secs * 1_000_000_000 + nanos,
{
    let d = jiff::SignedDuration::new(secs, nanos);
    SignedDuration { secs: d.as_secs(), nanos: d.subsec_nanos() }
}

/// Calls `jiff::SignedDuration::from_secs(secs)`: a duration of whole seconds.
#[verifier::external_body]
pub(crate) fn jiff_signed_duration_from_secs(secs: i64) -> (duration: SignedDuration)
    ensures
        duration.wf(),
        duration.total_nanos() == secs * 1_000_000_000,
{
    let d = jiff::SignedDuration::from_secs(secs);
    SignedDuration { secs: d.as_secs(), nanos: d.subsec_nanos() }
}

/// Calls `jiff::Timestamp + jiff::SignedDuration` (the `Add` impl), which
/// moves the instant by the duration and panics when the result leaves
/// jiff's range; `requires` keeps it in range.
#[verifier::external_body]
pub(crate) fn jiff_timestamp_add(timestamp: Instant, duration: SignedDuration) -> (sum: Instant)
    requires
        timestamp.wf(),
        duration.wf(),
        min_instant_nanos() <= timestamp.nanos() + duration.total_nanos() <= max_instant_nanos(),
    ensures
        sum.wf(),
        sum.nanos() == timestamp.nanos() + duration.total_nanos(),
{
    let t = jiff::Timestamp::constant(timestamp.second, timestamp.nanosecond)
        + jiff::SignedDuration::new(duration.secs, duration.nanos);
    Instant { second: t.as_second(), nanosecond: t.subsec_nanosecond() }
}


/// `jiff::Error`, the error jiff reports for values outside its ranges.
#[verifier::external_type_specification]
#[verifier::external_body]
pub struct ExJiffError(jiff::Error);

/// Formats a `jiff::Error` with its `Display` impl. Nothing is stated of
/// the text: it describes what the error holds, which is opaque here.
#[verifier::external_body]
pub(crate) fn jiff_error_text(error: &jiff::Error) -> (text: String) {
    error.to_string()
}

/// Calls `jiff::Timestamp::from_microsecond(microsecond)`, which fails exactly
/// when the count lies outside jiff's range of Unix microseconds
/// (`MIN_UNIX_SECOND` to `MAX_UNIX_SECOND` whole seconds) and otherwise
/// gives the instant that many microseconds after the Unix epoch. What the
/// error holds is not stated.
#[verifier::external_body]
pub(crate) fn jiff_timestamp_from_microsecond(microsecond: i64) -> (timestamp: Result<Instant, jiff::Error>)
    ensures
        timestamp is Ok <==> MIN_UNIX_SECOND * 1_000_000 <= microsecond <= MAX_UNIX_SECOND * 1_000_000,
        timestamp matches Ok(t) ==> t.wf() && t.nanos() == microsecond * 1000,
{
    let t = jiff::Timestamp::from_microsecond(microsecond)?;
    Ok(Instant { second: t.as_second(), nanosecond: t.subsec_nanosecond() })
}

/// Calls `jiff::Timestamp::as_microsecond`: the whole microseconds since the
/// Unix epoch, truncated toward zero.
#[verifier::external_body]
pub(crate) fn jiff_timestamp_as_microsecond(timestamp: Instant) -> (microsecond: i64)
    requires
        timestamp.wf(),
    ensures
        microsecond == tdiv(timestamp.nanos(), 1000),
{
    jiff::Timestamp::constant(timestamp.second, timestamp.nanosecond).as_microsecond()
}

/// Calls `jiff::Timestamp::duration_since`: the exact signed duration from
/// `other` to `timestamp`. It cannot fail for two timestamps in range.
#[verifier::external_body]
pub(crate) fn jiff_timestamp_duration_since(timestamp: Instant, other: Instant) -> (duration: SignedDuration)
    requires
        timestamp.wf(),
        other.wf(),
    ensures
        duration.wf(),
        duration.total_nanos() == timestamp.nanos() - other.nanos(),
{
    let a = jiff::Timestamp::constant(timestamp.second, timestamp.nanosecond);
    let d = a.duration_since(jiff::Timestamp::constant(other.second, other.nanosecond));
    SignedDuration { secs: d.as_secs(), nanos: d.subsec_nanos() }
}

/// Calls `jiff::Span::new().microseconds(us).days(d).months(m)`. jiff keeps
/// one sign for a whole span and the magnitude of each unit: a negative
/// value for any unit makes the whole span negative, so every unit reads
/// back with its magnitude and the span's sign. The setters panic outside
/// their documented bounds, which `requires` rules out.
#[verifier::external_body]
pub(crate) fn jiff_span_from_pg_units(microseconds: i64, days: i32, months: i32) -> (span: Span)
    requires
        -631_107_417_600_000_000 <= microseconds <= 631_107_417_600_000_000,
        -7_304_484 <= days <= 7_304_484,
        -239_976 <= months <= 239_976,
    ensures
        span.wf(),
        span == pg_units_span(microseconds as int, days as int, months as int),
{
    let s = jiff::Span::new().microseconds(microseconds).days(days).months(months);
    Span {
        years: s.get_years(), months: s.get_months(), weeks: s.get_weeks(), days: s.get_days(),
        hours: s.get_hours(), minutes: s.get_minutes(), seconds: s.get_seconds(),
        milliseconds: s.get_milliseconds(), microseconds: s.get_microseconds(),
        nanoseconds: s.get_nanoseconds(),
    }
}

/// Calls `jiff::Span::new().minutes(minutes)`: a span of only minutes. It
/// panics outside the documented bounds on minutes, which `requires` rules out.
#[verifier::external_body]
pub(crate) fn jiff_span_of_minutes(minutes: i64) -> (span: Span)
    requires
        -10_518_456_960 <= minutes <= 10_518_456_960,
    ensures
        span.wf(),
        span == minutes_span(minutes),
{
    let s = jiff::Span::new().minutes(minutes);
    Span {
        years: s.get_years(), months: s.get_months(), weeks: s.get_weeks(), days: s.get_days(),
        hours: s.get_hours(), minutes: s.get_minutes(), seconds: s.get_seconds(),
        milliseconds: s.get_milliseconds(), microseconds: s.get_microseconds(),
        nanoseconds: s.get_nanoseconds(),
    }
}


/// Calls `jiff::civil::DateTime::new`, which fails exactly when the fields
/// do not name a datetime of the years -9999 to 9999, and otherwise holds
/// the fields as given.
#[verifier::external_body]
pub(crate) fn jiff_civil_datetime(
    year: i16,
    month: i8,
    day: i8,
    hour: i8,
    minute: i8,
    second: i8,
    subsec_nanosecond: i32,
) -> (datetime: Result<CivilDateTime, jiff::Error>)
    ensures
        datetime is Ok <==> civil_fields_valid(
            year as int,
            month as int,
            day as int,
            hour as int,
            minute as int,
            second as int,
            subsec_nanosecond as int,
        ),
        datetime matches Ok(dt) ==> dt == (CivilDateTime {
            year,
            month,
            day,
            hour,
            minute,
            second,
            subsec_nanosecond,
        }),
{
    let d = jiff::civil::DateTime::new(year, month, day, hour, minute, second, subsec_nanosecond)?;
    Ok(CivilDateTime { year: d.year(), month: d.month(), day: d.day(), hour: d.hour(),
        minute: d.minute(), second: d.second(), subsec_nanosecond: d.subsec_nanosecond() })
}

/// Calls `datetime.checked_add(jiff::SignedDuration::from_micros(micros))`.
/// Civil datetimes carry no time zone, so every day counts 24 hours: the
/// result lies that many microseconds later on the civil time line. jiff
/// adds the duration to the time of day first and carries the whole days
/// (rounded down) to the date; the call fails exactly when that number of
/// days lies outside jiff's range of Unix epoch days
/// (-4,371,587 to 2,932,896) or the result lies outside jiff's range of
/// datetimes. What the error holds is not stated.
#[verifier::external_body]
pub(crate) fn jiff_datetime_checked_add_micros(datetime: CivilDateTime, micros: i64) -> (sum: Result<CivilDateTime, jiff::Error>)
    requires
        datetime.wf(),
    ensures
        sum is Ok <==> {
            &&& -4_371_587 <= (civil_time_nanos(datetime) + micros * 1000) / (NANOS_PER_CIVIL_DAY as int)
                <= 2_932_896
            &&& min_civil_nanos() <= civil_nanos(datetime) + micros * 1000 <= max_civil_nanos()
        },
        sum matches Ok(r) ==> r.wf() && civil_nanos(r) == civil_nanos(datetime) + micros * 1000,
{
    let CivilDateTime { year, month, day, hour, minute, second, subsec_nanosecond } = datetime;
    let dt = jiff::civil::DateTime::constant(year, month, day, hour, minute, second, subsec_nanosecond);
    let r = dt.checked_add(jiff::SignedDuration::from_micros(micros))?;
    Ok(CivilDateTime { year: r.year(), month: r.month(), day: r.day(), hour: r.hour(),
        minute: r.minute(), second: r.second(), subsec_nanosecond: r.subsec_nanosecond() })
}

/// Calls `datetime.duration_since(other)`: the exact signed duration from
/// `other` to `datetime` on the civil time line, where every day counts 24
/// hours.
#[verifier::external_body]
pub(crate) fn jiff_datetime_duration_since(datetime: CivilDateTime, other: CivilDateTime) -> (duration: SignedDuration)
    requires
        datetime.wf(),
        other.wf(),
    ensures
        duration.wf(),
        duration.total_nanos() == civil_nanos(datetime) - civil_nanos(other),
{
    let CivilDateTime { year, month, day, hour, minute, second, subsec_nanosecond } = datetime;
    let a = jiff::civil::DateTime::constant(year, month, day, hour, minute, second, subsec_nanosecond);
    let CivilDateTime { year, month, day, hour, minute, second, subsec_nanosecond } = other;
    let b = jiff::civil::DateTime::constant(year, month, day, hour, minute, second, subsec_nanosecond);
    let d = a.duration_since(b);
    SignedDuration { secs: d.as_secs(), nanos: d.subsec_nanos() }
}

} // verus!
