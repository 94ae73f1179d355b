//! Values stored in PostgreSQL columns and their conversions to and from the
//! wire representations that PostgreSQL uses.
//!
//! Time values are held as plain integers, the way jiff reports them: a span
//! by its ten signed units, an instant by its whole seconds and the
//! nanoseconds of the second, both relative to the Unix epoch.
use vstd::prelude::*;

pub mod serde_jiff_timestamp;

use crate::jiff_bridge::{
    jiff_signed_duration_from_secs, jiff_signed_duration_new, jiff_span_from_pg_units, jiff_timestamp_add,
    jiff_timestamp_duration_since, jiff_civil_datetime, jiff_datetime_checked_add_micros,
    jiff_datetime_duration_since, jiff_error_text,
};

verus! {

/// Nanoseconds in one second.
pub const NANOS_PER_SEC: i64 = 1_000_000_000;

/// Microseconds in one second.
pub const USEC_PER_SEC: i64 = 1_000_000;

/// Nanoseconds in one microsecond.
pub const NANO_PER_USEC: i32 = 1_000;

/// The earliest whole second (since the Unix epoch) that a jiff timestamp holds.
pub const MIN_UNIX_SECOND: i64 = -377_705_023_201;

/// The latest whole second (since the Unix epoch) that a jiff timestamp holds.
pub const MAX_UNIX_SECOND: i64 = 253_402_207_200;

/// Seconds from the Unix epoch (1970-01-01) to the PostgreSQL epoch (2000-01-01).
pub const PG_EPOCH_UNIX_SECONDS: i64 = 946_684_800;

/// Integer division that rounds toward zero, as Rust's `/` does.
pub open spec fn tdiv(a: int, b: int) -> int
    recommends
        b > 0,
{
    if a >= 0 {
        a / b
    } else {
        -((-a) / b)
    }
}

/// The remainder that goes with [`tdiv`]; it has the sign of `a`, as Rust's `%` does.
pub open spec fn trem(a: int, b: int) -> int
    recommends
        b > 0,
{
    a - b * tdiv(a, b)
}

/// `a` truncated toward zero to a multiple of `b`.
pub open spec fn truncate_to(a: int, b: int) -> int {
    tdiv(a, b) * b
}

// ---------------------------------------------------------------------------
// Signed durations
// ---------------------------------------------------------------------------

/// A signed duration of time: whole seconds and the nanoseconds of the last,
/// partial second, both with the sign of the duration.
#[derive(Clone, Copy, Debug, PartialEq, Eq, Structural)]
pub struct SignedDuration {
    pub secs: i64,
    pub nanos: i32,
}

impl SignedDuration {
    /// The representation is balanced: the nanoseconds are less than one
    /// second and do not disagree in sign with the seconds.
    pub open spec fn wf(self) -> bool {
        &&& -NANOS_PER_SEC < self.nanos < NANOS_PER_SEC
        &&& self.secs > 0 ==> self.nanos >= 0
        &&& self.secs < 0 ==> self.nanos <= 0
    }

    /// The length of the duration in nanoseconds.
    pub open spec fn total_nanos(self) -> int {
        self.secs * NANOS_PER_SEC + self.nanos
    }

    /// The whole seconds of the duration.
    pub fn as_secs(&self) -> (secs: i64)
        ensures
            secs == self.secs,
    {
        self.secs
    }

    /// The whole microseconds of the last, partial second, rounded toward zero.
    pub fn subsec_micros(&self) -> (micros: i32)
        ensures
            micros == tdiv(self.nanos as int, 1000),
    {
        self.nanos / 1000
    }
}

/// Builds a duration from a number of microseconds.
pub fn usecs_to_duration(usecs_passed: i64) -> (duration: SignedDuration)
    ensures
        duration.wf(),
        duration.total_nanos() == usecs_passed * 1000,
{
    let seconds = usecs_passed / USEC_PER_SEC;
    let subsecond_usecs = usecs_passed % USEC_PER_SEC;
    let subseconds = subsecond_usecs as i32 * NANO_PER_USEC;
    jiff_signed_duration_new(seconds, subseconds)
}

/// The number of whole microseconds in a duration, rounded toward zero.
pub fn duration_to_usecs(duration: SignedDuration) -> (usecs: i64)
    requires
        duration.wf(),
        i64::MIN <= duration.secs * USEC_PER_SEC + tdiv(duration.nanos as int, 1000) <= i64::MAX,
        i64::MIN <= duration.secs * USEC_PER_SEC <= i64::MAX,
    ensures
        usecs == tdiv(duration.total_nanos(), 1000),
{
    let seconds = duration.as_secs() * USEC_PER_SEC;
    let subseconds = duration.subsec_micros();
    proof {
        lemma_split_truncation(duration.secs as int, duration.nanos as int);
    }
    seconds + subseconds as i64
}

/// Truncating nanoseconds to microseconds distributes over the whole seconds
/// when the parts of a balanced duration are added.
proof fn lemma_split_truncation(secs: int, nanos: int)
    requires
        -1_000_000_000 < nanos < 1_000_000_000,
        secs > 0 ==> nanos >= 0,
        secs < 0 ==> nanos <= 0,
    ensures
        tdiv(secs * 1_000_000_000 + nanos, 1000) == secs * 1_000_000 + tdiv(nanos, 1000),
{
    let t = secs * 1_000_000_000 + nanos;
    if secs >= 0 && nanos >= 0 {
        assert(t >= 0);
        assert((secs * 1_000_000 * 1000 + nanos) / 1000 == secs * 1_000_000 + nanos / 1000) by (nonlinear_arith)
            requires nanos >= 0, secs >= 0;
    } else {
        assert(secs <= 0 && nanos <= 0);
        assert(((-secs) * 1_000_000 * 1000 + (-nanos)) / 1000 == (-secs) * 1_000_000 + (-nanos) / 1000) by (nonlinear_arith)
            requires nanos <= 0, secs <= 0;
    }
}

// ---------------------------------------------------------------------------
// Instants
// ---------------------------------------------------------------------------

/// An instant in time: whole seconds since the Unix epoch and the
/// nanoseconds of the partial second, both with the sign of the instant.
#[derive(Clone, Copy, Debug, Default, PartialEq, Eq, Structural)]
pub struct Instant {
    pub second: i64,
    pub nanosecond: i32,
}

/// The earliest instant jiff holds, in nanoseconds since the Unix epoch.
pub open spec fn min_instant_nanos() -> int {
    MIN_UNIX_SECOND * NANOS_PER_SEC
}

/// The latest instant jiff holds, in nanoseconds since the Unix epoch.
pub open spec fn max_instant_nanos() -> int {
    MAX_UNIX_SECOND * NANOS_PER_SEC + 999_999_999
}

/// The PostgreSQL epoch in nanoseconds since the Unix epoch.
pub open spec fn pg_epoch_nanos() -> int {
    PG_EPOCH_UNIX_SECONDS * NANOS_PER_SEC
}

impl Instant {
    /// The representation is balanced and the instant lies in jiff's range.
    pub open spec fn wf(self) -> bool {
        &&& -NANOS_PER_SEC < self.nanosecond < NANOS_PER_SEC
        &&& self.second > 0 ==> self.nanosecond >= 0
        &&& self.second < 0 ==> self.nanosecond <= 0
        &&& min_instant_nanos() <= self.nanos() <= max_instant_nanos()
    }

    /// Nanoseconds since the Unix epoch.
    pub open spec fn nanos(self) -> int {
        self.second * NANOS_PER_SEC + self.nanosecond
    }

    /// The Unix epoch, 1970-01-01T00:00:00Z.
    pub fn unix_epoch() -> (epoch: Instant)
        ensures
            epoch.wf(),
            epoch.nanos() == 0,
    {
        Instant { second: 0, nanosecond: 0 }
    }
}

/// The PostgreSQL epoch, 2000-01-01T00:00:00Z, as an instant.
pub fn pg_epoch_timestamp() -> (epoch: Instant)
    ensures
        epoch.wf(),
        epoch.nanos() == pg_epoch_nanos(),
{
    let thirty_years = jiff_signed_duration_from_secs(PG_EPOCH_UNIX_SECONDS);
    jiff_timestamp_add(Instant::unix_epoch(), thirty_years)
}


// ---------------------------------------------------------------------------
// Spans and intervals
// ---------------------------------------------------------------------------

/// A span of time as ten calendar and clock units, each read the way jiff
/// reports it (`get_years` and so on): every unit carries the sign of the
/// whole span.
#[derive(Clone, Copy, Debug, PartialEq, Eq, Structural)]
pub struct Span {
    pub years: i16,
    pub months: i32,
    pub weeks: i32,
    pub days: i32,
    pub hours: i32,
    pub minutes: i64,
    pub seconds: i64,
    pub milliseconds: i64,
    pub microseconds: i64,
    pub nanoseconds: i64,
}

/// The absolute value of an integer.
pub open spec fn abs(x: int) -> int {
    if x < 0 {
        -x
    } else {
        x
    }
}

/// A span with every unit zero.
pub open spec fn zero_span() -> Span {
    Span {
        years: 0,
        months: 0,
        weeks: 0,
        days: 0,
        hours: 0,
        minutes: 0,
        seconds: 0,
        milliseconds: 0,
        microseconds: 0,
        nanoseconds: 0,
    }
}

/// The span jiff builds from PostgreSQL's three interval fields: each
/// unit keeps its magnitude, and all take the negative sign as soon as any
/// of them is negative.
pub open spec fn pg_units_span(microseconds: int, days: int, months: int) -> Span {
    let negative = microseconds < 0 || days < 0 || months < 0;
    let signed = |x: int| if negative { -abs(x) } else { abs(x) };
    Span {
        microseconds: signed(microseconds) as i64,
        days: signed(days) as i32,
        months: signed(months) as i32,
        ..zero_span()
    }
}

/// The span of the given number of minutes alone.
pub open spec fn minutes_span(minutes: i64) -> Span {
    Span { minutes, ..zero_span() }
}

impl Span {
    /// Every unit lies within jiff's bounds for it, and no two units
    /// disagree in sign.
    pub open spec fn wf(self) -> bool {
        &&& -19_998 <= self.years <= 19_998
        &&& -239_976 <= self.months <= 239_976
        &&& -1_043_497 <= self.weeks <= 1_043_497
        &&& -7_304_484 <= self.days <= 7_304_484
        &&& -175_307_616 <= self.hours <= 175_307_616
        &&& -10_518_456_960 <= self.minutes <= 10_518_456_960
        &&& -631_107_417_600 <= self.seconds <= 631_107_417_600
        &&& -631_107_417_600_000 <= self.milliseconds <= 631_107_417_600_000
        &&& -631_107_417_600_000_000 <= self.microseconds <= 631_107_417_600_000_000
        &&& -9_223_372_036_854_775_807 <= self.nanoseconds
        &&& self.all_non_negative() || self.all_non_positive()
    }

    pub open spec fn all_non_negative(self) -> bool {
        &&& self.years >= 0 && self.months >= 0 && self.weeks >= 0 && self.days >= 0
        &&& self.hours >= 0 && self.minutes >= 0 && self.seconds >= 0
        &&& self.milliseconds >= 0 && self.microseconds >= 0 && self.nanoseconds >= 0
    }

    pub open spec fn all_non_positive(self) -> bool {
        &&& self.years <= 0 && self.months <= 0 && self.weeks <= 0 && self.days <= 0
        &&& self.hours <= 0 && self.minutes <= 0 && self.seconds <= 0
        &&& self.milliseconds <= 0 && self.microseconds <= 0 && self.nanoseconds <= 0
    }
}

/// The three fields in which PostgreSQL stores an `interval` value.
#[derive(Clone, Copy, Debug, PartialEq, Eq, Structural)]
pub struct PgInterval {
    pub microseconds: i64,
    pub days: i32,
    pub months: i32,
}

/// An `interval` column value.
#[derive(Clone, Copy, Debug)]
pub struct Interval(pub Span);

/// The interval fields that a span is written as: years become twelve
/// months each, weeks seven days each, and every clock unit down to
/// microseconds is counted in microseconds. Nanoseconds are not written.
pub open spec fn pg_interval_of(span: Span) -> PgInterval {
    PgInterval {
        months: (span.years * 12 + span.months) as i32,
        days: (span.weeks * 7 + span.days) as i32,
        microseconds: (span.hours * 3_600_000_000 + span.minutes * 60_000_000 + span.seconds
            * 1_000_000 + span.milliseconds * 1000 + span.microseconds) as i64,
    }
}

/// Whether PostgreSQL interval fields lie within the bounds jiff accepts
/// for microseconds, days and months.
pub open spec fn pg_interval_in_jiff_bounds(pg: PgInterval) -> bool {
    &&& -631_107_417_600_000_000 <= pg.microseconds <= 631_107_417_600_000_000
    &&& -7_304_484 <= pg.days <= 7_304_484
    &&& -239_976 <= pg.months <= 239_976
}

impl Interval {
    /// Tells whether [`Interval::from_sql`] accepts PostgreSQL interval fields.
    pub fn fits(pg: PgInterval) -> (fits: bool)
        ensures
            fits == pg_interval_in_jiff_bounds(pg),
    {
        -631_107_417_600_000_000 <= pg.microseconds && pg.microseconds <= 631_107_417_600_000_000
            && -7_304_484 <= pg.days && pg.days <= 7_304_484 && -239_976 <= pg.months && pg.months
            <= 239_976
    }

    /// Reads an interval from its PostgreSQL fields (`FromSql`).
    pub fn from_sql(pg: PgInterval) -> (interval: Interval)
        requires
            pg_interval_in_jiff_bounds(pg),
        ensures
            interval.0.wf(),
            interval.0 == pg_units_span(pg.microseconds as int, pg.days as int, pg.months as int),
    {
        Interval(jiff_span_from_pg_units(pg.microseconds, pg.days, pg.months))
    }

    /// Writes an interval as its PostgreSQL fields (`ToSql`).
    pub fn to_sql(&self) -> (pg: PgInterval)
        requires
            self.0.wf(),
        ensures
            pg == pg_interval_of(self.0),
            pg.months == self.0.years * 12 + self.0.months,
            pg.days == self.0.weeks * 7 + self.0.days,
            pg.microseconds == self.0.hours * 3_600_000_000 + self.0.minutes * 60_000_000
                + self.0.seconds * 1_000_000 + self.0.milliseconds * 1000 + self.0.microseconds,
    {
        let span = &self.0;
        let months = (span.years as i32 * 12) + span.months;
        let days = (span.weeks * 7) + span.days;
        let microseconds = (span.hours as i64 * 3_600_000_000) + (span.minutes * 60_000_000) + (
        span.seconds * 1_000_000) + (span.milliseconds * 1000) + span.microseconds;
        PgInterval { microseconds, days, months }
    }
}


/// The interval fields that come back when PostgreSQL fields are read into a
/// span and written again: the magnitudes are kept, and the sign of each is
/// negative as soon as any of the three was negative.
pub open spec fn pg_interval_after_round_trip(pg: PgInterval) -> PgInterval {
    let negative = pg.microseconds < 0 || pg.days < 0 || pg.months < 0;
    let signed = |x: int| if negative { -abs(x) } else { abs(x) };
    PgInterval {
        microseconds: signed(pg.microseconds as int) as i64,
        days: signed(pg.days as int) as i32,
        months: signed(pg.months as int) as i32,
    }
}

/// Reading an interval from PostgreSQL and writing it back gives the fields
/// with their magnitudes kept and one common sign; in particular it gives the
/// very same fields whenever the three fields do not disagree in sign.
pub proof fn lemma_interval_round_trip(pg: PgInterval)
    requires
        pg_interval_in_jiff_bounds(pg),
    ensures
        pg_interval_of(pg_units_span(pg.microseconds as int, pg.days as int, pg.months as int))
            == pg_interval_after_round_trip(pg),
        (pg.microseconds >= 0 && pg.days >= 0 && pg.months >= 0) || (pg.microseconds <= 0
            && pg.days <= 0 && pg.months <= 0) ==> pg_interval_of(
            pg_units_span(pg.microseconds as int, pg.days as int, pg.months as int),
        ) == pg,
{
}

// ---------------------------------------------------------------------------
// Timestamp columns
// ---------------------------------------------------------------------------

/// A `timestamp` column value: an instant, written to PostgreSQL as
/// microseconds since the PostgreSQL epoch. Serialized as the number of
/// **microseconds** since the Unix epoch.
#[derive(Clone, Copy, Debug, Default, PartialEq, Eq, Structural)]
pub struct Timestamp(pub Instant);

/// A `timestamptz` column value, stored exactly as a [`Timestamp`].
/// Serialized as the number of **microseconds** since the Unix epoch.
#[derive(Clone, Copy, Debug, Default, PartialEq, Eq, Structural)]
pub struct Timestamptz(pub Instant);

/// Whether a count of microseconds since the PostgreSQL epoch names an
/// instant within jiff's range.
pub open spec fn pg_usecs_in_range(usecs: int) -> bool {
    min_instant_nanos() <= pg_epoch_nanos() + usecs * 1000 <= max_instant_nanos()
}

/// Tells whether [`Timestamp::from_sql`] accepts a stored value.
pub fn pg_usecs_fit_timestamp(usecs: i64) -> (fits: bool)
    ensures
        fits == pg_usecs_in_range(usecs as int),
{
    let lo: i128 = -377_705_023_201_000_000_000 - 946_684_800_000_000_000;
    let hi: i128 = 253_402_207_200_999_999_999 - 946_684_800_000_000_000;
    let n: i128 = usecs as i128 * 1000;
    lo <= n && n <= hi
}

/// Microseconds from the PostgreSQL epoch to an instant, truncated toward
/// the PostgreSQL epoch.
pub fn instant_to_pg_usecs(instant: Instant) -> (usecs: i64)
    requires
        instant.wf(),
    ensures
        usecs == tdiv(instant.nanos() - pg_epoch_nanos(), 1000),
{
    let duration = jiff_timestamp_duration_since(instant, pg_epoch_timestamp());
    proof {
        lemma_duration_secs_bound(duration);
    }
    duration_to_usecs(duration)
}

/// The instant a number of microseconds after the PostgreSQL epoch.
pub fn instant_from_pg_usecs(usecs_passed: i64) -> (instant: Instant)
    requires
        pg_usecs_in_range(usecs_passed as int),
    ensures
        instant.wf(),
        instant.nanos() == pg_epoch_nanos() + usecs_passed * 1000,
{
    let time_passed = usecs_to_duration(usecs_passed);
    jiff_timestamp_add(pg_epoch_timestamp(), time_passed)
}

/// A balanced duration shorter than a thousand billion seconds has whole
/// seconds small enough to count in microseconds within an `i64`.
proof fn lemma_duration_secs_bound(d: SignedDuration)
    requires
        d.wf(),
        -1_000_000_000_000_000_000_000 <= d.total_nanos() <= 1_000_000_000_000_000_000_000,
    ensures
        -1_000_000_000_001 <= d.secs <= 1_000_000_000_001,
{
}

impl Timestamp {
    /// Writes the timestamp as microseconds since the PostgreSQL epoch
    /// (`ToSql`), truncating any nanoseconds toward that epoch.
    pub fn to_sql(&self) -> (usecs: i64)
        requires
            self.0.wf(),
        ensures
            usecs == tdiv(self.0.nanos() - pg_epoch_nanos(), 1000),
    {
        instant_to_pg_usecs(self.0)
    }

    /// Reads a timestamp from microseconds since the PostgreSQL epoch
    /// (`FromSql`).
    pub fn from_sql(usecs: i64) -> (timestamp: Timestamp)
        requires
            pg_usecs_in_range(usecs as int),
        ensures
            timestamp.0.wf(),
            timestamp.0.nanos() == pg_epoch_nanos() + usecs * 1000,
    {
        Timestamp(instant_from_pg_usecs(usecs))
    }
}

impl Timestamptz {
    /// Writes the timestamp as microseconds since the PostgreSQL epoch
    /// (`ToSql`), exactly as [`Timestamp::to_sql`] does.
    pub fn to_sql(&self) -> (usecs: i64)
        requires
            self.0.wf(),
        ensures
            usecs == tdiv(self.0.nanos() - pg_epoch_nanos(), 1000),
    {
        Timestamp(self.0).to_sql()
    }

    /// Reads a timestamp from microseconds since the PostgreSQL epoch
    /// (`FromSql`), exactly as [`Timestamp::from_sql`] does.
    pub fn from_sql(usecs: i64) -> (timestamp: Timestamptz)
        requires
            pg_usecs_in_range(usecs as int),
        ensures
            timestamp.0.wf(),
            timestamp.0.nanos() == pg_epoch_nanos() + usecs * 1000,
    {
        let timestamp = Timestamp::from_sql(usecs);
        Timestamptz(timestamp.0)
    }
}

/// Writing a stored timestamp back to PostgreSQL gives the stored number of
/// microseconds.
pub proof fn lemma_pg_usecs_round_trip(usecs: int, instant: Instant)
    requires
        pg_usecs_in_range(usecs),
        instant.wf(),
        instant.nanos() == pg_epoch_nanos() + usecs * 1000,
    ensures
        tdiv(instant.nanos() - pg_epoch_nanos(), 1000) == usecs,
{
}

/// Storing a timestamp and reading it back gives the instant truncated to
/// whole microseconds toward the PostgreSQL epoch; an instant of whole
/// microseconds comes back unchanged.
pub proof fn lemma_pg_instant_round_trip(instant: Instant)
    requires
        instant.wf(),
    ensures
        pg_usecs_in_range(tdiv(instant.nanos() - pg_epoch_nanos(), 1000)),
        pg_epoch_nanos() + tdiv(instant.nanos() - pg_epoch_nanos(), 1000) * 1000 == pg_epoch_nanos()
            + truncate_to(instant.nanos() - pg_epoch_nanos(), 1000),
        instant.nanosecond % 1000 == 0 ==> pg_epoch_nanos() + tdiv(
            instant.nanos() - pg_epoch_nanos(),
            1000,
        ) * 1000 == instant.nanos(),
{
}


/// A value that lies outside the range jiff can represent, with the text of
/// jiff's own report of the refusal.
#[derive(Debug)]
pub struct OutOfJiffRange {
    pub cause_text: String,
}

impl OutOfJiffRange {
    /// Keeps the text of jiff's report of a refusal.
    pub(crate) fn refused(cause: jiff::Error) -> (refusal: OutOfJiffRange) {
        OutOfJiffRange { cause_text: jiff_error_text(&cause) }
    }

    /// The report of a stored timestamp that jiff cannot hold: jiff's own
    /// report of the refusal, quoted after a fixed sentence.
    pub fn timestamp_report(&self) -> (report: String)
        ensures
            report@ == "Tried to deserialize a timestamp that is too large for Jiff: `"@
                + self.cause_text@ + "`"@,
    {
        let mut report = String::from_str("Tried to deserialize a timestamp that is too large for Jiff: `");
        report.append(self.cause_text.as_str());
        report.append("`");
        report
    }
}

// ---------------------------------------------------------------------------
// Civil datetimes
// ---------------------------------------------------------------------------

/// A date and time of day without a time zone, as jiff's
/// `civil::DateTime` holds it.
#[derive(Clone, Copy, Debug, PartialEq, Eq, Structural)]
pub struct CivilDateTime {
    pub year: i16,
    pub month: i8,
    pub day: i8,
    pub hour: i8,
    pub minute: i8,
    pub second: i8,
    pub subsec_nanosecond: i32,
}

/// Whether a year of the proleptic Gregorian calendar is a leap year.
pub open spec fn is_leap_year(year: int) -> bool {
    year % 4 == 0 && (year % 100 != 0 || year % 400 == 0)
}

/// The number of days in a month of a year.
pub open spec fn days_in_month(year: int, month: int) -> int {
    if month == 2 {
        if is_leap_year(year) {
            29
        } else {
            28
        }
    } else if month == 4 || month == 6 || month == 9 || month == 11 {
        30
    } else {
        31
    }
}

/// Days from 1970-01-01 to a date of the proleptic Gregorian calendar
/// (counting in 400-year eras of 146,097 days, with the year starting in March).
pub open spec fn days_from_civil(year: int, month: int, day: int) -> int {
    let y = if month <= 2 {
        year - 1
    } else {
        year
    };
    let era = y / 400;
    let yoe = y - era * 400;
    let mp = if month > 2 {
        month - 3
    } else {
        month + 9
    };
    let doy = (153 * mp + 2) / 5 + day - 1;
    let doe = yoe * 365 + yoe / 4 - yoe / 100 + doy;
    era * 146_097 + doe - 719_468
}

/// Nanoseconds in a civil day of 24 hours.
pub const NANOS_PER_CIVIL_DAY: i64 = 86_400_000_000_000;

/// Nanoseconds of a datetime's time of day since midnight.
pub open spec fn civil_time_nanos(dt: CivilDateTime) -> int {
    dt.hour * 3_600_000_000_000 + dt.minute * 60_000_000_000 + dt.second * 1_000_000_000
        + dt.subsec_nanosecond
}

/// Nanoseconds of a datetime after 1970-01-01T00:00:00 on the civil time
/// line, where every day has 24 hours.
pub open spec fn civil_nanos(dt: CivilDateTime) -> int {
    days_from_civil(dt.year as int, dt.month as int, dt.day as int) * NANOS_PER_CIVIL_DAY
        + civil_time_nanos(dt)
}

/// Whether [`DateTime::from_sql`] can read an offset: jiff carries the
/// offset's whole days (rounded down) to the PostgreSQL epoch's date, and
/// refuses more days than its range of Unix epoch days spans from the Unix
/// epoch, or a result past its latest datetime.
pub open spec fn pg_offset_readable(offset: int) -> bool {
    -4_371_587 <= (offset * 1000) / (NANOS_PER_CIVIL_DAY as int) <= 2_932_896 - 10_957
}

/// [`civil_nanos`] of -9999-01-01T00:00:00, the earliest datetime jiff holds.
pub open spec fn min_civil_nanos() -> int {
    -4_371_587 * 86_400_000_000_000
}

/// [`civil_nanos`] of 9999-12-31T23:59:59.999999999, the latest datetime jiff holds.
pub open spec fn max_civil_nanos() -> int {
    (2_932_896 * 86_400_000_000_000 + 86_399_999_999_999) as int
}

/// Whether the fields name a datetime jiff can hold.
pub open spec fn civil_fields_valid(
    year: int,
    month: int,
    day: int,
    hour: int,
    minute: int,
    second: int,
    subsec_nanosecond: int,
) -> bool {
    &&& -9999 <= year <= 9999
    &&& 1 <= month <= 12
    &&& 1 <= day <= days_in_month(year, month)
    &&& 0 <= hour <= 23
    &&& 0 <= minute <= 59
    &&& 0 <= second <= 59
    &&& 0 <= subsec_nanosecond <= 999_999_999
}

impl CivilDateTime {
    pub open spec fn wf(self) -> bool {
        civil_fields_valid(
            self.year as int,
            self.month as int,
            self.day as int,
            self.hour as int,
            self.minute as int,
            self.second as int,
            self.subsec_nanosecond as int,
        )
    }
}

/// Every datetime jiff holds lies between its earliest and latest datetime
/// on the civil time line.
pub proof fn lemma_civil_nanos_bounds(dt: CivilDateTime)
    requires
        dt.wf(),
    ensures
        min_civil_nanos() <= civil_nanos(dt) <= max_civil_nanos(),
{
    let year = dt.year as int;
    let month = dt.month as int;
    let day = dt.day as int;
    let y = if month <= 2 {
        year - 1
    } else {
        year
    };
    let era = y / 400;
    let yoe = y - era * 400;
    let mp = if month > 2 {
        month - 3
    } else {
        month + 9
    };
    let doy = (153 * mp + 2) / 5 + day - 1;
    let doe = yoe * 365 + yoe / 4 - yoe / 100 + doy;
    assert(days_from_civil(year, month, day) == era * 146_097 + doe - 719_468);
    assert(0 <= yoe < 400);
    assert(0 <= doy <= 365);
    assert(-25 <= era <= 24);
    if era == -25 && yoe == 0 {
        assert(month <= 2 && year == -9999);
        assert(doy >= 306);
    }
    if era == 24 && yoe == 399 {
        assert(month >= 3 && year == 9999);
        assert(doy <= 305);
    }
    let days = days_from_civil(year, month, day);
    assert(-4_371_587 <= days <= 2_932_896);
}

/// Days of an era of 400 years before the start of its year `yoe`, where
/// years start in March; `yoe == 400` gives the length of the era.
spec fn days_before_year_of_era(yoe: int) -> int {
    yoe * 365 + yoe / 4 - yoe / 100 + yoe / 400
}

/// The year in which a date's March-based year starts.
spec fn march_year(year: int, month: int) -> int {
    if month <= 2 {
        year - 1
    } else {
        year
    }
}

/// A month's place in the March-based year, March first.
spec fn march_month(month: int) -> int {
    if month > 2 {
        month - 3
    } else {
        month + 9
    }
}

/// Days of the March-based year before the first of a month.
spec fn days_before_march_month(mp: int) -> int {
    (153 * mp + 2) / 5
}

/// Within its March-based year, a valid date falls before the next year
/// starts, and within its month before the next month starts.
proof fn lemma_day_of_march_year_bound(year: int, month: int, day: int)
    requires
        -9999 <= year <= 9999,
        1 <= month <= 12,
        1 <= day <= days_in_month(year, month),
    ensures
        ({
            let y = march_year(year, month);
            let yoe = y - (y / 400) * 400;
            let doy = days_before_march_month(march_month(month)) + day - 1;
            &&& 0 <= yoe < 400
            &&& 0 <= doy
            &&& doy < days_before_year_of_era(yoe + 1) - days_before_year_of_era(yoe)
            &&& days_from_civil(year, month, day) == (y / 400) * 146_097 + days_before_year_of_era(yoe)
                + doy - 719_468
        }),
{
    let y = march_year(year, month);
    let era = y / 400;
    let yoe = y - era * 400;
    let mp = march_month(month);
    assert(days_before_march_month(0) == 0);
    assert(days_before_march_month(1) == 31);
    assert(days_before_march_month(2) == 61);
    assert(days_before_march_month(3) == 92);
    assert(days_before_march_month(4) == 122);
    assert(days_before_march_month(5) == 153);
    assert(days_before_march_month(6) == 184);
    assert(days_before_march_month(7) == 214);
    assert(days_before_march_month(8) == 245);
    assert(days_before_march_month(9) == 275);
    assert(days_before_march_month(10) == 306);
    assert(days_before_march_month(11) == 337);
    assert(0 <= yoe < 400);
    if mp == 11 && day == 29 {
        assert(is_leap_year(year));
        assert(year == era * 400 + yoe + 1);
        assert((yoe + 1) % 4 == 0) by {
            assert(year % 4 == 0);
            assert((era * 400 + yoe + 1) % 4 == (yoe + 1) % 4) by (nonlinear_arith);
        }
        if (yoe + 1) % 100 == 0 {
            assert(year % 400 == 0) by {
                assert((era * 400 + yoe + 1) % 100 == (yoe + 1) % 100) by (nonlinear_arith);
            }
            assert((era * 400 + yoe + 1) % 400 == (yoe + 1) % 400) by (nonlinear_arith);
            assert(yoe == 399);
        }
    }
}

/// Two valid dates that [`days_from_civil`] counts alike are the same date.
proof fn lemma_days_from_civil_injective(y1: int, m1: int, d1: int, y2: int, m2: int, d2: int)
    requires
        -9999 <= y1 <= 9999,
        1 <= m1 <= 12,
        1 <= d1 <= days_in_month(y1, m1),
        -9999 <= y2 <= 9999,
        1 <= m2 <= 12,
        1 <= d2 <= days_in_month(y2, m2),
        days_from_civil(y1, m1, d1) == days_from_civil(y2, m2, d2),
    ensures
        y1 == y2 && m1 == m2 && d1 == d2,
{
    lemma_day_of_march_year_bound(y1, m1, d1);
    lemma_day_of_march_year_bound(y2, m2, d2);
    let e1 = march_year(y1, m1) / 400;
    let e2 = march_year(y2, m2) / 400;
    let yoe1 = march_year(y1, m1) - e1 * 400;
    let yoe2 = march_year(y2, m2) - e2 * 400;
    let doy1 = days_before_march_month(march_month(m1)) + d1 - 1;
    let doy2 = days_before_march_month(march_month(m2)) + d2 - 1;
    let doe1 = days_before_year_of_era(yoe1) + doy1;
    let doe2 = days_before_year_of_era(yoe2) + doy2;
    lemma_year_of_era_starts_increase(yoe1);
    lemma_year_of_era_starts_increase(yoe2);
    assert(0 <= doe1 < 146_097);
    assert(0 <= doe2 < 146_097);
    assert(e1 == e2);
    assert(doe1 == doe2);
    if yoe1 < yoe2 {
        lemma_year_of_era_starts_monotone(yoe1 + 1, yoe2);
    }
    if yoe2 < yoe1 {
        lemma_year_of_era_starts_monotone(yoe2 + 1, yoe1);
    }
    assert(yoe1 == yoe2);
    assert(doy1 == doy2);
    assert(march_month(m1) == march_month(m2));
    assert(m1 == m2);
}

/// Every year of an era starts later than the one before, and the era's
/// last year ends where the era does.
proof fn lemma_year_of_era_starts_increase(yoe: int)
    requires
        0 <= yoe < 400,
    ensures
        days_before_year_of_era(yoe) >= 0,
        days_before_year_of_era(yoe + 1) - days_before_year_of_era(yoe) >= 365,
        days_before_year_of_era(yoe + 1) <= 146_097,
{
}

/// Later years of an era start later.
proof fn lemma_year_of_era_starts_monotone(a: int, b: int)
    requires
        0 <= a <= b <= 400,
    ensures
        days_before_year_of_era(a) <= days_before_year_of_era(b),
    decreases b - a,
{
    if a < b {
        lemma_year_of_era_starts_increase(a);
        lemma_year_of_era_starts_monotone(a + 1, b);
    }
}

/// A `timestamp` column value read as a civil datetime.
#[derive(Clone, Copy, Debug, PartialEq)]
pub struct DateTime(pub CivilDateTime);

/// The PostgreSQL epoch, 2000-01-01T00:00:00, as a civil datetime.
pub fn pg_epoch_datetime() -> (epoch: CivilDateTime)
    ensures
        epoch.wf(),
        epoch == (CivilDateTime {
            year: 2000,
            month: 1,
            day: 1,
            hour: 0,
            minute: 0,
            second: 0,
            subsec_nanosecond: 0,
        }),
        civil_nanos(epoch) == pg_epoch_nanos(),
{
    match jiff_civil_datetime(2000, 1, 1, 0, 0, 0, 0) {
        Ok(epoch) => epoch,
        Err(_) => {
            assert(false);
            CivilDateTime { year: 2000, month: 1, day: 1, hour: 0, minute: 0, second: 0, subsec_nanosecond: 0 }
        },
    }
}

impl DateTime {
    /// Reads a datetime from microseconds since the PostgreSQL epoch
    /// (`FromSql`); an offset jiff cannot carry from the PostgreSQL epoch
    /// ([`pg_offset_readable`]) is refused.
    pub fn from_sql(offset: i64) -> (datetime: Result<DateTime, OutOfJiffRange>)
        ensures
            datetime is Ok <==> pg_offset_readable(offset as int),
            datetime matches Ok(dt) ==> dt.0.wf() && civil_nanos(dt.0) == pg_epoch_nanos() + offset
                * 1000,
    {
        match jiff_datetime_checked_add_micros(pg_epoch_datetime(), offset) {
            Ok(v) => Ok(DateTime(v)),
            Err(cause) => Err(OutOfJiffRange::refused(cause)),
        }
    }

    /// Writes the datetime as microseconds since the PostgreSQL epoch
    /// (`ToSql`), truncated toward that epoch. Every datetime jiff holds
    /// fits in an `i64` of microseconds, so writing never fails.
    pub fn to_sql(&self) -> (usecs: i64)
        requires
            self.0.wf(),
        ensures
            usecs == tdiv(civil_nanos(self.0) - pg_epoch_nanos(), 1000),
    {
        proof {
            lemma_civil_nanos_bounds(self.0);
        }
        let since = jiff_datetime_duration_since(self.0, pg_epoch_datetime());
        let micros: i128 = since.as_micros();
        micros as i64
    }
}

impl SignedDuration {
    /// The whole microseconds of the duration, truncated toward zero.
    pub fn as_micros(&self) -> (micros: i128)
        requires
            self.wf(),
        ensures
            micros == tdiv(self.total_nanos(), 1000),
    {
        proof {
            lemma_split_truncation(self.secs as int, self.nanos as int);
        }
        (self.secs as i128) * 1_000_000 + (self.nanos / 1000) as i128
    }
}


/// Two datetimes jiff holds at the same point of the civil time line are
/// the same datetime.
pub proof fn lemma_civil_nanos_injective(a: CivilDateTime, b: CivilDateTime)
    requires
        a.wf(),
        b.wf(),
        civil_nanos(a) == civil_nanos(b),
    ensures
        a == b,
{
    let da = days_from_civil(a.year as int, a.month as int, a.day as int);
    let db = days_from_civil(b.year as int, b.month as int, b.day as int);
    let ta = civil_time_nanos(a);
    let tb = civil_time_nanos(b);
    assert(0 <= ta < 86_400_000_000_000);
    assert(0 <= tb < 86_400_000_000_000);
    assert(da * 86_400_000_000_000 + ta == db * 86_400_000_000_000 + tb);
    if da < db {
        assert(da * 86_400_000_000_000 + 86_400_000_000_000 <= db * 86_400_000_000_000);
    }
    if db < da {
        assert(db * 86_400_000_000_000 + 86_400_000_000_000 <= da * 86_400_000_000_000);
    }
    assert(da == db);
    assert(ta == tb);
    lemma_days_from_civil_injective(
        a.year as int,
        a.month as int,
        a.day as int,
        b.year as int,
        b.month as int,
        b.day as int,
    );
    assert(a.hour == b.hour);
    assert(a.minute == b.minute);
    assert(a.second == b.second);
}

/// Writing a datetime read from PostgreSQL gives back the stored offset.
/// Writing a datetime gives the point on the civil time line truncated
/// toward the PostgreSQL epoch to whole microseconds, and reading it back
/// succeeds for every datetime from day -4,360,630 after the Unix epoch
/// (in the year -9969) on; jiff refuses to carry more days than that back
/// from the PostgreSQL epoch. A datetime of whole microseconds that is read
/// back (`back`) is the very datetime that was written.
pub proof fn lemma_datetime_round_trip(offset: int, dt: CivilDateTime, back: CivilDateTime)
    requires
        dt.wf(),
    ensures
        tdiv(offset * 1000, 1000) == offset,
        pg_epoch_nanos() + tdiv(civil_nanos(dt) - pg_epoch_nanos(), 1000) * 1000 == pg_epoch_nanos()
            + truncate_to(civil_nanos(dt) - pg_epoch_nanos(), 1000),
        civil_nanos(dt) >= -4_360_630 * NANOS_PER_CIVIL_DAY ==> pg_offset_readable(
            tdiv(civil_nanos(dt) - pg_epoch_nanos(), 1000),
        ),
        ({
            &&& back.wf()
            &&& dt.subsec_nanosecond % 1000 == 0
            &&& civil_nanos(back) == pg_epoch_nanos() + tdiv(civil_nanos(dt) - pg_epoch_nanos(), 1000)
                * 1000
        }) ==> back == dt,
{
    lemma_civil_nanos_bounds(dt);
    if back.wf() && dt.subsec_nanosecond % 1000 == 0 && civil_nanos(back) == pg_epoch_nanos()
        + tdiv(civil_nanos(dt) - pg_epoch_nanos(), 1000) * 1000 {
        let days = days_from_civil(dt.year as int, dt.month as int, dt.day as int);
        let q = days * 86_400_000_000 + dt.hour * 3_600_000_000 + dt.minute * 60_000_000 + dt.second
            * 1_000_000 + dt.subsec_nanosecond / 1000 - 946_684_800_000_000;
        assert(civil_nanos(dt) - pg_epoch_nanos() == q * 1000);
        assert(tdiv(q * 1000, 1000) == q);
        lemma_civil_nanos_injective(back, dt);
    }
}

// ---------------------------------------------------------------------------
// JSON columns
// ---------------------------------------------------------------------------

/// A value stored in a `jsonb` column.
#[derive(Debug, Clone)]
pub struct Json<T>(pub T);

impl<T> Json<T> {
    /// Wraps a value for storage as JSON.
    pub fn new(value: T) -> (json: Json<T>)
        ensures
            json.0 == value,
    {
        Json(value)
    }
}

} // verus!
