use lockinspiel::sql_types::{Interval, Span};
use lockinspiel::time_split::{
    group_time_split_timers, number_timers, InsertablePackagedTimeSplit, InsertableTimeSplit,
    InsertableTimeSplitTimer, PackagedTimeSplit, TimeSplit, TimeSplitTimer,
};

fn minutes(m: i64) -> Span {
    Span { years: 0, months: 0, weeks: 0, days: 0, hours: 0, minutes: m, seconds: 0, milliseconds: 0, microseconds: 0, nanoseconds: 0 }
}

fn split(id: i32, name: &str) -> TimeSplit {
    TimeSplit { id, name: name.to_string(), description: None }
}

fn timer(id: i32, time_split_id: i32, order_idx: i32) -> TimeSplitTimer {
    TimeSplitTimer { id, time_split_id, order_idx, len: Interval(minutes(5)), name: format!("t{id}"), work: false }
}

fn ids(timers: &[TimeSplitTimer]) -> Vec<i32> {
    timers.iter().map(|t| t.id).collect()
}

#[test]
fn placeholders_describe_a_pomodoro() {
    let t = InsertableTimeSplitTimer::placeholder();
    assert_eq!(t.len.0, minutes(25));
    assert_eq!(t.name, "Work");
    assert!(t.work);

    let t = TimeSplitTimer::placeholder();
    assert_eq!((t.id, t.time_split_id, t.order_idx), (35, 989, 0));
    assert_eq!(t.len.0, minutes(25));

    let s = InsertableTimeSplit::placeholder();
    assert_eq!(s.name, "Pomodoro");
    assert_eq!(s.description.as_deref(), Some("The certified hood classic"));

    let s = TimeSplit::placeholder();
    assert_eq!(s.id, 98);
    assert_eq!(s.name, "Pomodoro");

    let p = InsertablePackagedTimeSplit::placeholder();
    assert_eq!(p.timers.len(), 1);
    assert_eq!(p.time_split.name, "Pomodoro");

    let p = PackagedTimeSplit::placeholder();
    assert_eq!(p.time_split.id, 98);
    assert_eq!(p.timers.len(), 1);
    assert_eq!(p.timers[0].id, 35);
}

#[test]
fn number_timers_numbers_in_order() {
    let timers = vec![
        InsertableTimeSplitTimer { len: Interval(minutes(25)), name: "Work".to_string(), work: true },
        InsertableTimeSplitTimer { len: Interval(minutes(5)), name: "Break".to_string(), work: false },
        InsertableTimeSplitTimer { len: Interval(minutes(25)), name: "Work".to_string(), work: true },
    ];
    let rows = number_timers(timers, 77);
    assert_eq!(rows.len(), 3);
    for (i, row) in rows.iter().enumerate() {
        assert_eq!(row.order_idx, i as i32);
        assert_eq!(row.time_split_id, 77);
    }
    assert_eq!(rows[1].timer.name, "Break");
    assert!(!rows[1].timer.work);
}

#[test]
fn number_timers_of_no_timers() {
    assert!(number_timers(Vec::new(), 1).is_empty());
}

#[test]
fn group_puts_timers_under_their_split() {
    let splits = vec![split(1, "a"), split(2, "b")];
    let timers = vec![timer(10, 2, 0), timer(11, 1, 0), timer(12, 3, 0), timer(13, 2, 1)];
    let grouped = group_time_split_timers(splits, timers);
    assert_eq!(grouped.len(), 2);
    assert_eq!(grouped[0].time_split.id, 1);
    assert_eq!(grouped[0].time_split.name, "a");
    assert_eq!(ids(&grouped[0].timers), vec![11]);
    assert_eq!(grouped[1].time_split.id, 2);
    assert_eq!(ids(&grouped[1].timers), vec![10, 13]);
}

#[test]
fn group_with_shared_id_gives_timers_to_last_split() {
    let splits = vec![split(5, "first"), split(6, "other"), split(5, "second")];
    let timers = vec![timer(1, 5, 0), timer(2, 6, 0)];
    let grouped = group_time_split_timers(splits, timers);
    assert!(grouped[0].timers.is_empty());
    assert_eq!(ids(&grouped[1].timers), vec![2]);
    assert_eq!(ids(&grouped[2].timers), vec![1]);
    assert_eq!(grouped[2].time_split.name, "second");
}

#[test]
fn group_without_splits_drops_all_timers() {
    let grouped = group_time_split_timers(Vec::new(), vec![timer(1, 1, 0)]);
    assert!(grouped.is_empty());
}
