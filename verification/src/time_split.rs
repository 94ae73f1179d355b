//! Time splits: named sequences of work and break timers, and the rules by
//! which they are created and read back together with their timers.
use std::collections::HashMap;

use vstd::prelude::*;

use crate::api::{error_body, is_client_error, ApiError, EyreErrorWrapper};
use crate::jiff_bridge::jiff_span_of_minutes;
use crate::sql_types::{minutes_span, Interval};

verus! {

/// A timer of a time split as submitted for insertion.
#[derive(Debug)]
pub struct InsertableTimeSplitTimer {
    pub len: Interval,
    pub name: String,
    pub work: bool,
}

impl InsertableTimeSplitTimer {
    /// An example timer: 25 minutes of work.
    pub fn placeholder() -> (timer: Self)
        ensures
            timer.len.0 == minutes_span(25),
            timer.name@ == "Work"@,
            timer.work,
    {
        Self { len: Interval(jiff_span_of_minutes(25)), name: String::from_str("Work"), work: true }
    }
}

/// A stored timer of a time split; `order_idx` is its place in the split.
#[derive(Debug)]
pub struct TimeSplitTimer {
    pub id: i32,
    pub time_split_id: i32,
    pub order_idx: i32,
    pub len: Interval,
    pub name: String,
    pub work: bool,
}

impl TimeSplitTimer {
    /// An example stored timer.
    pub fn placeholder() -> (timer: Self)
        ensures
            timer.id == 35,
            timer.time_split_id == 989,
            timer.order_idx == 0,
            timer.len.0 == minutes_span(25),
            timer.name@ == "Work"@,
            timer.work,
    {
        Self {
            id: 35,
            time_split_id: 989,
            order_idx: 0,
            len: Interval(jiff_span_of_minutes(25)),
            name: String::from_str("Work"),
            work: true,
        }
    }
}

/// A time split as submitted for insertion or modification.
#[derive(Debug)]
pub struct InsertableTimeSplit {
    pub name: String,
    pub description: Option<String>,
}

impl InsertableTimeSplit {
    /// An example time split.
    pub fn placeholder() -> (time_split: Self)
        ensures
            time_split.name@ == "Pomodoro"@,
            time_split.description matches Some(d) && d@ == "The certified hood classic"@,
    {
        Self {
            name: String::from_str("Pomodoro"),
            description: Some(String::from_str("The certified hood classic")),
        }
    }
}

/// A stored time split.
#[derive(Debug)]
pub struct TimeSplit {
    pub id: i32,
    pub name: String,
    pub description: Option<String>,
}

impl TimeSplit {
    /// An example stored time split.
    pub fn placeholder() -> (time_split: Self)
        ensures
            time_split.id == 98,
            time_split.name@ == "Pomodoro"@,
            time_split.description matches Some(d) && d@ == "The certified hood classic"@,
    {
        Self {
            id: 98,
            name: String::from_str("Pomodoro"),
            description: Some(String::from_str("The certified hood classic")),
        }
    }
}

/// A time split and its timers, as submitted for creation.
#[derive(Debug)]
pub struct InsertablePackagedTimeSplit {
    pub time_split: InsertableTimeSplit,
    pub timers: Vec<InsertableTimeSplitTimer>,
}

impl InsertablePackagedTimeSplit {
    /// An example submission: the example split with the example timer.
    pub fn placeholder() -> (packaged: Self)
        ensures
            packaged.time_split.name@ == "Pomodoro"@,
            packaged.time_split.description matches Some(d) && d@ == "The certified hood classic"@,
            packaged.timers.len() == 1,
            packaged.timers[0].len.0 == minutes_span(25),
            packaged.timers[0].name@ == "Work"@,
            packaged.timers[0].work,
    {
        Self {
            time_split: InsertableTimeSplit::placeholder(),
            timers: vec![InsertableTimeSplitTimer::placeholder()],
        }
    }
}

/// A stored time split with its timers.
#[derive(Debug)]
pub struct PackagedTimeSplit {
    pub time_split: TimeSplit,
    pub timers: Vec<TimeSplitTimer>,
}

impl PackagedTimeSplit {
    /// An example stored split with the example stored timer.
    pub fn placeholder() -> (packaged: Self)
        ensures
            packaged.time_split.id == 98,
            packaged.time_split.name@ == "Pomodoro"@,
            packaged.time_split.description matches Some(d) && d@ == "The certified hood classic"@,
            packaged.timers.len() == 1,
            packaged.timers[0].id == 35,
            packaged.timers[0].time_split_id == 989,
            packaged.timers[0].order_idx == 0,
            packaged.timers[0].len.0 == minutes_span(25),
            packaged.timers[0].name@ == "Work"@,
            packaged.timers[0].work,
    {
        Self { time_split: TimeSplit::placeholder(), timers: vec![TimeSplitTimer::placeholder()] }
    }
}


/// A timer row ready for insertion: the submitted timer with its place in
/// the split and the split it belongs to.
#[derive(Debug)]
pub struct NewTimeSplitTimer {
    pub timer: InsertableTimeSplitTimer,
    pub order_idx: i32,
    pub time_split_id: i32,
}

/// Numbers the submitted timers of a new time split in the order given,
/// from zero, and attaches each to the split.
pub fn number_timers(timers: Vec<InsertableTimeSplitTimer>, time_split_id: i32) -> (rows: Vec<
    NewTimeSplitTimer,
>)
    ensures
        rows.len() == timers.len(),
        forall|i: int|
            0 <= i < rows.len() ==> {
                &&& #[trigger] rows[i].timer == timers[i]
                &&& rows[i].order_idx == i as i32
                &&& rows[i].time_split_id == time_split_id
            },
{
    let mut rows: Vec<NewTimeSplitTimer> = Vec::new();
    for t in it: timers.into_iter()
        invariant
            it.seq() == timers@,
            rows.len() == it.index(),
            forall|i: int|
                0 <= i < rows.len() ==> {
                    &&& #[trigger] rows[i].timer == timers[i]
                    &&& rows[i].order_idx == i as i32
                    &&& rows[i].time_split_id == time_split_id
                },
    {
        let order = rows.len();
        rows.push(NewTimeSplitTimer { timer: t, order_idx: order as i32, time_split_id });
    }
    rows
}

/// The position of the last time split in `ids` with the given id, or -1
/// when none has it.
pub open spec fn last_index_of(ids: Seq<i32>, id: i32) -> int
    decreases ids.len(),
{
    if ids.len() == 0 {
        -1
    } else if ids.last() == id {
        ids.len() - 1
    } else {
        last_index_of(ids.drop_last(), id)
    }
}

/// The ids of the given time splits, in order.
pub open spec fn split_ids(time_splits: Seq<TimeSplit>) -> Seq<i32> {
    time_splits.map_values(|s: TimeSplit| s.id)
}

/// The timers that go with the time split at position `k`: those whose
/// split id is last held by the split at `k`, in the order given.
pub open spec fn timers_of(timers: Seq<TimeSplitTimer>, ids: Seq<i32>, k: int) -> Seq<
    TimeSplitTimer,
> {
    timers.filter(|t: TimeSplitTimer| last_index_of(ids, t.time_split_id) == k)
}

proof fn lemma_last_index_of_bounds(ids: Seq<i32>, id: i32)
    ensures
        -1 <= last_index_of(ids, id) < ids.len(),
        last_index_of(ids, id) >= 0 ==> ids[last_index_of(ids, id)] == id,
        last_index_of(ids, id) == -1 ==> !ids.contains(id),
    decreases ids.len(),
{
    if ids.len() > 0 {
        lemma_last_index_of_bounds(ids.drop_last(), id);
        if ids.last() != id && last_index_of(ids, id) == -1 {
            assert forall|j: int| 0 <= j < ids.len() implies ids[j] != id by {
                if j < ids.len() - 1 {
                    assert(ids.drop_last()[j] == ids[j]);
                }
            }
        }
    }
}

/// Puts each stored timer with the time split it belongs to. The splits
/// keep their order; each split's timers keep the order in which they are
/// given; a timer whose split id names no split is dropped. When two splits
/// share an id, the later one gets the timers.
pub fn group_time_split_timers(time_splits: Vec<TimeSplit>, time_split_timers: Vec<TimeSplitTimer>) -> (grouped: Vec<PackagedTimeSplit>)
    ensures
        grouped.len() == time_splits.len(),
        forall|k: int|
            0 <= k < grouped.len() ==> {
                &&& #[trigger] grouped[k].time_split == time_splits[k]
                &&& grouped[k].timers@ == timers_of(time_split_timers@, split_ids(time_splits@), k)
            },
{
    let ghost ids = split_ids(time_splits@);
    let mut id_indices: HashMap<i32, usize> = HashMap::new();
    let mut i: usize = 0;
    while i < time_splits.len()
        invariant
            i <= time_splits.len(),
            ids == split_ids(time_splits@),
            forall|id: i32|
                #![trigger id_indices@.contains_key(id)]
                id_indices@.contains_key(id) <==> last_index_of(ids.take(i as int), id) >= 0,
            forall|id: i32|
                #![trigger id_indices@[id]]
                id_indices@.contains_key(id) ==> id_indices@[id] == last_index_of(
                    ids.take(i as int),
                    id,
                ),
        decreases time_splits.len() - i,
    {
        assert(ids.take(i + 1).drop_last() =~= ids.take(i as int));
        id_indices.insert(time_splits[i].id, i);
        i = i + 1;
    }
    assert(ids.take(time_splits.len() as int) =~= ids);
    let ghost splits = time_splits@;
    let mut grouped: Vec<PackagedTimeSplit> = Vec::new();
    for time_split in it: time_splits.into_iter()
        invariant
            it.seq() == splits,
            grouped.len() == it.index(),
            forall|k: int|
                0 <= k < grouped.len() ==> {
                    &&& #[trigger] grouped[k].time_split == splits[k]
                    &&& grouped[k].timers@ == Seq::<TimeSplitTimer>::empty()
                },
    {
        grouped.push(PackagedTimeSplit { time_split, timers: Vec::new() });
    }
    let ghost timers = time_split_timers@;
    for child in it: time_split_timers.into_iter()
        invariant
            it.seq() == timers,
            grouped.len() == splits.len(),
            ids == split_ids(splits),
            forall|id: i32|
                #![trigger id_indices@.contains_key(id)]
                id_indices@.contains_key(id) <==> last_index_of(ids, id) >= 0,
            forall|id: i32|
                #![trigger id_indices@[id]]
                id_indices@.contains_key(id) ==> id_indices@[id] == last_index_of(ids, id),
            forall|k: int|
                0 <= k < grouped.len() ==> {
                    &&& #[trigger] grouped[k].time_split == splits[k]
                    &&& grouped[k].timers@ == timers_of(timers.take(it.index() as int), ids, k)
                },
    {
        let ghost j = it.index();
        let ghost before = grouped@;
        proof {
            lemma_last_index_of_bounds(ids, child.time_split_id);
            assert(timers.take(j + 1).drop_last() =~= timers.take(j));
            assert(timers.take(j + 1).last() == child);
            reveal_with_fuel(Seq::filter, 1);
        }
        match id_indices.get(&child.time_split_id) {
            Some(idx) => {
                let idx = *idx;
                grouped[idx].timers.push(child);
                assert forall|k: int| 0 <= k < grouped.len() implies {
                    &&& #[trigger] grouped[k].time_split == splits[k]
                    &&& grouped[k].timers@ == timers_of(timers.take(j + 1), ids, k)
                } by {
                    assert(timers_of(timers.take(j + 1), ids, k) == {
                        let prev = timers_of(timers.take(j), ids, k);
                        if last_index_of(ids, child.time_split_id) == k {
                            prev.push(child)
                        } else {
                            prev
                        }
                    });
                    if k != idx {
                        assert(grouped[k] == before[k]);
                    }
                }
            },
            None => {
                assert forall|k: int| 0 <= k < grouped.len() implies {
                    &&& #[trigger] grouped[k].time_split == splits[k]
                    &&& grouped[k].timers@ == timers_of(timers.take(j + 1), ids, k)
                } by {
                    assert(timers_of(timers.take(j + 1), ids, k) == timers_of(timers.take(j), ids, k));
                }
            },
        }
    }
    assert(timers.take(timers.len() as int) =~= timers);
    grouped
}


/// Whether timers are in order of their place in their split.
pub open spec fn sorted_by_place(timers: Seq<TimeSplitTimer>) -> bool {
    forall|i: int, j: int| 0 <= i <= j < timers.len() ==> timers[i].order_idx <= timers[j].order_idx
}

/// Keeping some of the timers keeps them in order of their place.
proof fn lemma_filter_keeps_place_order(timers: Seq<TimeSplitTimer>, pred: spec_fn(TimeSplitTimer) -> bool)
    requires
        sorted_by_place(timers),
    ensures
        sorted_by_place(timers.filter(pred)),
    decreases timers.len(),
{
    reveal_with_fuel(Seq::filter, 1);
    if timers.len() > 0 {
        let rest = timers.drop_last();
        assert forall|i: int, j: int| 0 <= i <= j < rest.len() implies rest[i].order_idx
            <= rest[j].order_idx by {
            assert(rest[i] == timers[i]);
            assert(rest[j] == timers[j]);
        }
        lemma_filter_keeps_place_order(rest, pred);
        let kept = rest.filter(pred);
        if pred(timers.last()) {
            assert forall|i: int| 0 <= i < kept.len() implies kept[i].order_idx
                <= timers.last().order_idx by {
                assert(kept.contains(kept[i]));
                rest.lemma_filter_contains_rev(pred, kept[i]);
                let j = choose|j: int| 0 <= j < rest.len() && rest[j] == kept[i];
                assert(timers[j] == rest[j]);
            }
            assert(timers.filter(pred) == kept.push(timers.last()));
        } else {
            assert(timers.filter(pred) == kept);
        }
    }
}

/// When the stored timers are given in order of their place in their split,
/// the timers each split gets are in that order too.
pub proof fn lemma_grouped_timers_keep_place_order(timers: Seq<TimeSplitTimer>, ids: Seq<i32>, k: int)
    requires
        sorted_by_place(timers),
    ensures
        sorted_by_place(timers_of(timers, ids, k)),
{
    lemma_filter_keeps_place_order(timers, |t: TimeSplitTimer| last_index_of(ids, t.time_split_id) == k);
}

/// When no two time splits share an id, the split at each position gets
/// exactly the timers that carry its id, in the order given.
pub proof fn lemma_grouping_by_id(timers: Seq<TimeSplitTimer>, time_splits: Seq<TimeSplit>, k: int)
    requires
        0 <= k < time_splits.len(),
        forall|i: int, j: int|
            0 <= i < time_splits.len() && 0 <= j < time_splits.len() && i != j
                ==> time_splits[i].id != time_splits[j].id,
    ensures
        timers_of(timers, split_ids(time_splits), k) == timers.filter(
            |t: TimeSplitTimer| t.time_split_id == time_splits[k].id,
        ),
{
    let ids = split_ids(time_splits);
    let id = time_splits[k].id;
    assert forall|t: TimeSplitTimer|
        (last_index_of(ids, t.time_split_id) == k) == (t.time_split_id == id) by {
        lemma_last_index_of_bounds(ids, t.time_split_id);
        if t.time_split_id == id {
            assert(ids[k] == id);
            assert(ids.contains(id));
        }
    }
    assert((|t: TimeSplitTimer| last_index_of(ids, t.time_split_id) == k) =~= (|t: TimeSplitTimer|
        t.time_split_id == id));
}


/// The documented answers of a time split endpoint without a body: success,
/// a 4XX error ("It's your fault") or a 5XX error ("We're having a skill
/// issue").
#[derive(Debug)]
pub enum TimeSplitVoidResponses {
    Success(()),
    YourFault(EyreErrorWrapper),
    OurFault(EyreErrorWrapper),
}

/// The documented answers of the time split read endpoint.
#[derive(Debug)]
pub enum TimeSplitArrayResponses {
    Success(Vec<PackagedTimeSplit>),
    YourFault(EyreErrorWrapper),
    OurFault(EyreErrorWrapper),
}

/// The documented answers of the time split creation endpoint.
#[derive(Debug)]
pub enum TimeSplitResponses {
    Success(PackagedTimeSplit),
    YourFault(EyreErrorWrapper),
    OurFault(EyreErrorWrapper),
}

impl TimeSplitVoidResponses {
    /// The documented answer for a handler's result.
    pub fn from_result(result: Result<(), ApiError>) -> (response: Self)
        ensures
            result is Ok ==> response is Success,
            result matches Err(e) ==> if is_client_error(e.status) {
                response matches Self::YourFault(b) && b.message@ == e.message@
            } else {
                response matches Self::OurFault(b) && b.message@ == e.message@
            },
    {
        match result {
            Ok(()) => Self::Success(()),
            Err(e) => if e.status < 500 {
                Self::YourFault(error_body(e))
            } else {
                Self::OurFault(error_body(e))
            },
        }
    }
}

impl TimeSplitArrayResponses {
    /// The documented answer for a handler's result.
    pub fn from_result(result: Result<Vec<PackagedTimeSplit>, ApiError>) -> (response: Self)
        ensures
            result matches Ok(v) ==> response == Self::Success(v),
            result matches Err(e) ==> if is_client_error(e.status) {
                response matches Self::YourFault(b) && b.message@ == e.message@
            } else {
                response matches Self::OurFault(b) && b.message@ == e.message@
            },
    {
        match result {
            Ok(v) => Self::Success(v),
            Err(e) => if e.status < 500 {
                Self::YourFault(error_body(e))
            } else {
                Self::OurFault(error_body(e))
            },
        }
    }
}

impl TimeSplitResponses {
    /// The documented answer for a handler's result.
    pub fn from_result(result: Result<PackagedTimeSplit, ApiError>) -> (response: Self)
        ensures
            result matches Ok(v) ==> response == Self::Success(v),
            result matches Err(e) ==> if is_client_error(e.status) {
                response matches Self::YourFault(b) && b.message@ == e.message@
            } else {
                response matches Self::OurFault(b) && b.message@ == e.message@
            },
    {
        match result {
            Ok(v) => Self::Success(v),
            Err(e) => if e.status < 500 {
                Self::YourFault(error_body(e))
            } else {
                Self::OurFault(error_body(e))
            },
        }
    }
}

/// `POST /timekeeper/time-split`: creates a time split with its timers;
/// the timer lengths use jiff's span format.
#[derive(Debug)]
pub struct CreateTimeSplitRoute {
    pub body: InsertablePackagedTimeSplit,
}

/// `GET /timekeeper/time-split`: the time splits of the user and the
/// default ones.
#[derive(Debug)]
pub struct GetTimeSplitsRoute {}

/// `PUT /timekeeper/time-split/{id}`: modifies the fields of a time split.
#[derive(Debug)]
pub struct ModifyTimeSplitRoute {
    pub time_split: InsertableTimeSplit,
    pub id: i32,
}

/// `DELETE /timekeeper/time-split/{id}`: marks a time split deleted; it
/// stays in the database, and timers posted with it keep it.
#[derive(Debug)]
pub struct DeleteTimeSplitRoute {
    pub id: i32,
}

} // verus!
