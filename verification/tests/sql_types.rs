use lockinspiel::sql_types::serde_jiff_timestamp;
use lockinspiel::sql_types::{
    duration_to_usecs, pg_epoch_datetime, pg_epoch_timestamp, pg_usecs_fit_timestamp,
    usecs_to_duration, CivilDateTime, DateTime, Instant, Interval, Json, PgInterval,
    SignedDuration, Span, Timestamp, Timestamptz,
};

fn span(years: i16, months: i32, weeks: i32, days: i32, hours: i32, minutes: i64, seconds: i64,
        milliseconds: i64, microseconds: i64, nanoseconds: i64) -> Span {
    Span { years, months, weeks, days, hours, minutes, seconds, milliseconds, microseconds, nanoseconds }
}

#[test]
fn interval_to_sql_folds_units() {
    let interval = Interval(span(1, 2, 1, 3, 1, 2, 3, 4, 5, 6));
    let pg = interval.to_sql();
    assert_eq!(pg.months, 14);
    assert_eq!(pg.days, 10);
    assert_eq!(pg.microseconds, 3_600_000_000 + 120_000_000 + 3_000_000 + 4_000 + 5);
}

#[test]
fn interval_to_sql_negative_span() {
    let interval = Interval(span(-1, 0, -2, -1, 0, -30, 0, 0, 0, 0));
    let pg = interval.to_sql();
    assert_eq!(pg, PgInterval { microseconds: -1_800_000_000, days: -15, months: -12 });
}

#[test]
fn interval_to_sql_largest_span_fits() {
    let interval = Interval(span(19_998, 239_976, 1_043_497, 7_304_484, 175_307_616,
        10_518_456_960, 631_107_417_600, 631_107_417_600_000, 631_107_417_600_000_000, 0));
    let pg = interval.to_sql();
    assert_eq!(pg.months, 19_998 * 12 + 239_976);
    assert_eq!(pg.days, 1_043_497 * 7 + 7_304_484);
    assert_eq!(pg.microseconds, 175_307_616 * 3_600_000_000 + 10_518_456_960 * 60_000_000
        + 631_107_417_600 * 1_000_000 + 631_107_417_600_000 * 1000 + 631_107_417_600_000_000);
}

#[test]
fn interval_from_sql_keeps_positive_units() {
    let interval = Interval::from_sql(PgInterval { microseconds: 5, days: 3, months: 2 });
    assert_eq!(interval.0, span(0, 2, 0, 3, 0, 0, 0, 0, 5, 0));
}

#[test]
fn interval_from_sql_negative_unit_makes_span_negative() {
    let pg = PgInterval { microseconds: 5, days: -3, months: 2 };
    let interval = Interval::from_sql(pg);
    assert_eq!(interval.0, span(0, -2, 0, -3, 0, 0, 0, 0, -5, 0));
    assert_eq!(interval.to_sql(), PgInterval { microseconds: -5, days: -3, months: -2 });
}

#[test]
fn interval_round_trip_same_signs() {
    for pg in [
        PgInterval { microseconds: 1_500_000, days: 7, months: 1 },
        PgInterval { microseconds: -1, days: 0, months: -3 },
        PgInterval { microseconds: 0, days: 0, months: 0 },
    ] {
        assert_eq!(Interval::from_sql(pg).to_sql(), pg);
    }
}

#[test]
fn interval_fits_checks_jiff_bounds() {
    assert!(Interval::fits(PgInterval { microseconds: 631_107_417_600_000_000, days: 7_304_484, months: -239_976 }));
    assert!(!Interval::fits(PgInterval { microseconds: i64::MAX, days: 0, months: 0 }));
    assert!(!Interval::fits(PgInterval { microseconds: 0, days: 7_304_485, months: 0 }));
    assert!(!Interval::fits(PgInterval { microseconds: 0, days: 0, months: -239_977 }));
}

#[test]
fn pg_epoch_timestamp_is_year_2000() {
    assert_eq!(pg_epoch_timestamp(), Instant { second: 946_684_800, nanosecond: 0 });
}

#[test]
fn timestamp_to_sql_counts_from_pg_epoch() {
    assert_eq!(Timestamp(Instant { second: 946_684_800, nanosecond: 0 }).to_sql(), 0);
    assert_eq!(Timestamp(Instant { second: 946_684_801, nanosecond: 2_500 }).to_sql(), 1_000_002);
    assert_eq!(Timestamp(Instant { second: 0, nanosecond: 0 }).to_sql(), -946_684_800_000_000);
}

#[test]
fn timestamp_to_sql_truncates_toward_pg_epoch() {
    // 1999-12-31T23:59:59.9999995Z lies 500ns before the PostgreSQL epoch.
    assert_eq!(Timestamp(Instant { second: 946_684_799, nanosecond: 999_999_500 }).to_sql(), 0);
    assert_eq!(Timestamp(Instant { second: 946_684_799, nanosecond: 999_998_500 }).to_sql(), -1);
}

#[test]
fn timestamp_from_sql_adds_to_pg_epoch() {
    assert_eq!(Timestamp::from_sql(1_000_002).0, Instant { second: 946_684_801, nanosecond: 2_000 });
    assert_eq!(Timestamp::from_sql(-1).0, Instant { second: 946_684_799, nanosecond: 999_999_000 });
    assert_eq!(Timestamp::from_sql(-946_684_800_500_000).0, Instant { second: 0, nanosecond: -500_000_000 });
}

#[test]
fn timestamptz_matches_timestamp() {
    let t = Instant { second: 1_700_000_000, nanosecond: 123_456_789 };
    assert_eq!(Timestamptz(t).to_sql(), Timestamp(t).to_sql());
    assert_eq!(Timestamptz::from_sql(42).0, Timestamp::from_sql(42).0);
}

#[test]
fn timestamp_sql_round_trip() {
    for usecs in [0i64, 1, -1, 725_846_400_000_000, -1_000_000_000_000_000] {
        assert_eq!(Timestamp::from_sql(usecs).to_sql(), usecs);
    }
}

#[test]
fn pg_usecs_fit_timestamp_bounds() {
    assert!(pg_usecs_fit_timestamp(0));
    assert!(!pg_usecs_fit_timestamp(i64::MAX));
    assert!(!pg_usecs_fit_timestamp(i64::MIN));
    assert!(pg_usecs_fit_timestamp(253_402_207_200_999_999 - 946_684_800_000_000));
    assert!(!pg_usecs_fit_timestamp(253_402_207_201_000_000 - 946_684_800_000_000));
}

#[test]
fn usecs_to_duration_balances_parts() {
    assert_eq!(usecs_to_duration(-1_500_000), SignedDuration { secs: -1, nanos: -500_000_000 });
    assert_eq!(usecs_to_duration(2_000_001), SignedDuration { secs: 2, nanos: 1_000 });
}

#[test]
fn duration_to_usecs_truncates() {
    assert_eq!(duration_to_usecs(SignedDuration { secs: 3, nanos: 999_999 }), 3_000_999);
    assert_eq!(duration_to_usecs(SignedDuration { secs: -3, nanos: -999_999 }), -3_000_999);
}

#[test]
fn serde_timestamp_reads_microseconds() {
    let t = serde_jiff_timestamp::deserialize(-1).unwrap();
    assert_eq!(t, Instant { second: 0, nanosecond: -1_000 });
    let t = serde_jiff_timestamp::deserialize(1_725_029_869_123_456).unwrap();
    assert_eq!(t, Instant { second: 1_725_029_869, nanosecond: 123_456_000 });
}

#[test]
fn serde_timestamp_refuses_out_of_range() {
    assert!(serde_jiff_timestamp::deserialize(i64::MAX).is_err());
    assert!(serde_jiff_timestamp::deserialize(-377_705_023_201_000_001).is_err());
    assert!(serde_jiff_timestamp::deserialize(-377_705_023_201_000_000).is_ok());
    assert!(serde_jiff_timestamp::deserialize(253_402_207_200_000_000).is_ok());
    assert!(serde_jiff_timestamp::deserialize(253_402_207_200_000_001).is_err());
}

#[test]
fn serde_timestamp_writes_truncated_microseconds() {
    assert_eq!(serde_jiff_timestamp::serialize(&Instant { second: 5, nanosecond: 123_456_789 }), 5_123_456);
    assert_eq!(serde_jiff_timestamp::serialize(&Instant { second: -5, nanosecond: -123_456_789 }), -5_123_456);
}

#[test]
fn serde_timestamp_round_trip() {
    for micros in [0i64, -1, 1_725_029_869_123_456, -377_705_023_201_000_000] {
        let t = serde_jiff_timestamp::deserialize(micros).unwrap();
        assert_eq!(serde_jiff_timestamp::serialize(&t), micros);
    }
}

fn civil(year: i16, month: i8, day: i8, hour: i8, minute: i8, second: i8, subsec_nanosecond: i32) -> CivilDateTime {
    CivilDateTime { year, month, day, hour, minute, second, subsec_nanosecond }
}

#[test]
fn pg_epoch_datetime_is_year_2000() {
    assert_eq!(pg_epoch_datetime(), civil(2000, 1, 1, 0, 0, 0, 0));
}

#[test]
fn datetime_from_sql_counts_days_of_24_hours() {
    assert_eq!(DateTime::from_sql(0).unwrap().0, civil(2000, 1, 1, 0, 0, 0, 0));
    assert_eq!(DateTime::from_sql(59 * 86_400_000_000).unwrap().0, civil(2000, 2, 29, 0, 0, 0, 0));
    assert_eq!(DateTime::from_sql(-1).unwrap().0, civil(1999, 12, 31, 23, 59, 59, 999_999_000));
}

#[test]
fn datetime_from_sql_refuses_out_of_range() {
    assert!(DateTime::from_sql(i64::MAX).is_err());
    assert!(DateTime::from_sql(i64::MIN).is_err());
}

#[test]
fn datetime_refusal_reports_jiff_error() {
    let refusal = DateTime::from_sql(i64::MAX).err().unwrap();
    assert!(!refusal.cause_text.is_empty());
    assert_eq!(
        refusal.timestamp_report(),
        format!("Tried to deserialize a timestamp that is too large for Jiff: `{}`", refusal.cause_text)
    );
    let refusal = serde_jiff_timestamp::deserialize(i64::MAX).err().unwrap();
    assert!(!refusal.cause_text.is_empty());
}

#[test]
fn datetime_to_sql_counts_from_pg_epoch() {
    assert_eq!(DateTime(civil(2000, 1, 2, 0, 0, 0, 0)).to_sql(), 86_400_000_000);
    assert_eq!(DateTime(civil(1970, 1, 1, 0, 0, 0, 0)).to_sql(), -946_684_800_000_000);
    assert_eq!(DateTime(civil(2000, 1, 1, 0, 0, 0, 1_999)).to_sql(), 1);
    assert_eq!(DateTime(civil(9999, 12, 31, 23, 59, 59, 999_999_999)).to_sql(), 252_455_615_999_999_999);
}

#[test]
fn datetime_sql_round_trip() {
    for dt in [civil(2024, 6, 30, 8, 36, 0, 0), civil(-9969, 1, 1, 0, 0, 0, 0), civil(9999, 12, 31, 23, 59, 59, 999_999_000), civil(1999, 3, 1, 12, 0, 0, 5_000), civil(2000, 2, 29, 1, 2, 3, 4_000), civil(1900, 2, 28, 0, 0, 0, 0)] {
        assert_eq!(DateTime::from_sql(DateTime(dt).to_sql()).unwrap().0, dt);
    }
}

#[test]
fn json_new_wraps_value() {
    let json = Json::new(vec![1, 2, 3]);
    assert_eq!(json.0, vec![1, 2, 3]);
}

#[test]
fn datetime_from_sql_refuses_earliest_years() {
    // -9999-01-01 can be written, but jiff will not carry that many days back
    // from the PostgreSQL epoch when reading it.
    let offset = DateTime(civil(-9999, 1, 1, 0, 0, 0, 0)).to_sql();
    assert!(DateTime::from_sql(offset).is_err());
}
