//! The request-handling rules of the timekeeper service: tags, time splits
//! and timers.
//!
//! A handler alternates decisions with database work. Each decision is a
//! function here; the database work between two decisions is done by the
//! caller. A handler that needs several pieces of work moves through typed
//! states: each state holds what the next piece of work needs, and each
//! transition takes the outcome of that work and either answers the client
//! (`Err`, or the final `Ok`) or gives the next state.
use vstd::prelude::*;

use crate::api::{
    error_is, error_wraps, or_status, require_found, require_user, ApiError, Failure, UserId,
    INTERNAL_SERVER_ERROR, NIL_USER_ID, NOT_FOUND, UNAUTHORIZED, UNPROCESSABLE_ENTITY,
};
use crate::sql_types::Timestamptz;
use crate::time_split::{
    group_time_split_timers, lemma_grouped_timers_keep_place_order, number_timers, sorted_by_place,
    split_ids, timers_of, InsertablePackagedTimeSplit,
    InsertableTimeSplit, InsertableTimeSplitTimer, NewTimeSplitTimer, PackagedTimeSplit, TimeSplit,
    TimeSplitTimer,
};

verus! {

// ---------------------------------------------------------------------------
// Writes and reads
// ---------------------------------------------------------------------------

/// The stored rows a write applies to.
#[derive(Clone, Copy, Debug, PartialEq, Eq, Structural)]
pub enum WriteTarget {
    /// The tag with the id.
    Tag(i32),
    /// The time split with the id.
    TimeSplit(i32),
    /// Every timer of the time split with the id.
    TimersOfTimeSplit(i32),
}

/// What a write does to the rows it applies to. No write removes a row: a
/// deleted tag, time split or timer is only marked deleted and stays in the
/// database.
#[derive(Debug)]
pub enum WriteAction<T> {
    /// Sets the rows' fields to the given values; a field given as absent
    /// (a time split's description of `None`) is left as stored.
    SetFields(T),
    /// Marks the rows deleted.
    MarkDeleted,
}

/// A write to stored rows.
#[derive(Debug)]
pub struct Write<T> {
    pub target: WriteTarget,
    pub action: WriteAction<T>,
}

/// The order in which a read gives the rows it finds.
#[derive(Clone, Copy, Debug, PartialEq, Eq, Structural)]
pub enum ReadOrder {
    /// In whatever order the database finds them.
    Unordered,
    /// By their place in their time split, first place first.
    PlaceAscending,
    /// By their start time, latest first.
    StartTimeDescending,
}

/// The tables whose rows the writes above touch.
#[derive(Clone, Copy, Debug, PartialEq, Eq, Structural)]
pub enum Table {
    Tag,
    TimeSplit,
    TimeSplitTimer,
}

/// A stored row as writes and reads see it: its table, its id, the time
/// split it belongs to (a timer's split; for other rows it is unused), and
/// whether it is marked deleted.
pub struct StoredRow {
    pub table: Table,
    pub id: i32,
    pub time_split_id: i32,
    pub deleted: bool,
}

/// Whether a write's target takes in a stored row.
pub open spec fn targets(target: WriteTarget, row: StoredRow) -> bool {
    match target {
        WriteTarget::Tag(id) => row.table == Table::Tag && row.id == id,
        WriteTarget::TimeSplit(id) => row.table == Table::TimeSplit && row.id == id,
        WriteTarget::TimersOfTimeSplit(id) => row.table == Table::TimeSplitTimer && row.time_split_id
            == id,
    }
}

/// A stored row after a write: marked deleted when the write marks its
/// target deleted and takes the row in. Setting fields never touches the
/// deleted mark.
pub open spec fn written<T>(write: Write<T>, row: StoredRow) -> StoredRow {
    if targets(write.target, row) && write.action is MarkDeleted {
        StoredRow { deleted: true, ..row }
    } else {
        row
    }
}

/// Whether a read that hides deleted rows when `hide_deleted` holds shows
/// a stored row.
pub open spec fn shown(hide_deleted: bool, row: StoredRow) -> bool {
    !(hide_deleted && row.deleted)
}

/// Once marked deleted, a row stays marked, whatever write follows.
pub proof fn lemma_deleted_stays_deleted<T>(write: Write<T>, row: StoredRow)
    requires
        row.deleted,
    ensures
        written(write, row).deleted,
{
}

/// A stored row after a run of writes, the first write first.
pub open spec fn written_all<T>(writes: Seq<Write<T>>, row: StoredRow) -> StoredRow
    decreases writes.len(),
{
    if writes.len() == 0 {
        row
    } else {
        written(writes.last(), written_all(writes.drop_last(), row))
    }
}

/// Once marked deleted, a row stays marked through any run of later writes.
pub proof fn lemma_deleted_stays_deleted_through<T>(writes: Seq<Write<T>>, row: StoredRow)
    requires
        row.deleted,
    ensures
        written_all(writes, row).deleted,
    decreases writes.len(),
{
    if writes.len() > 0 {
        lemma_deleted_stays_deleted_through(writes.drop_last(), row);
    }
}

/// After the two writes of deleting a time split (its timers, then the
/// split itself), neither the split nor any of its timers is shown by a
/// read that hides deleted rows, as reading time splits and their timers
/// does; other rows are left as they were.
pub proof fn lemma_deleted_time_split_is_hidden(id: i32, row: StoredRow)
    ensures
        ({
            let after = written(
                Write::<()> { target: WriteTarget::TimeSplit(id), action: WriteAction::MarkDeleted },
                written(
                    Write::<()> {
                        target: WriteTarget::TimersOfTimeSplit(id),
                        action: WriteAction::MarkDeleted,
                    },
                    row,
                ),
            );
            &&& (row.table == Table::TimeSplit && row.id == id) ==> !shown(true, after)
            &&& (row.table == Table::TimeSplitTimer && row.time_split_id == id) ==> !shown(true, after)
            &&& !(row.table == Table::TimeSplit && row.id == id) && !(row.table == Table::TimeSplitTimer
                && row.time_split_id == id) ==> after == row
        }),
{
}

// ---------------------------------------------------------------------------
// Tags
// ---------------------------------------------------------------------------

/// Creating a tag: a logged-in account inserts the tag as its own.
pub struct CreateTag<T> {
    pub tag: T,
    pub user_id: UserId,
}

/// Starts creating a tag. Without a logged-in account the request is
/// answered "401 Unauthorized"; otherwise the tag is to be inserted for the
/// account.
pub fn create_tag<T>(user: Option<UserId>, tag: T) -> (next: Result<CreateTag<T>, ApiError>)
    ensures
        user is None ==> (next matches Err(e) && error_is(
            e,
            UNAUTHORIZED,
            "You need to be logged in to create a tag"@,
        )),
        user matches Some(u) ==> next == Ok::<CreateTag<T>, ApiError>(CreateTag { tag, user_id: u }),
{
    let user_id = require_user(user, "You need to be logged in to create a tag")?;
    Ok(CreateTag { tag, user_id })
}

impl<T> CreateTag<T> {
    /// Answers with the id of the inserted tag, or "422" when the insert failed.
    pub fn inserted<R>(self, inserted: Result<R, Failure>) -> (reply: Result<R, ApiError>)
        ensures
            inserted matches Ok(id) ==> reply == Ok::<R, ApiError>(id),
            inserted matches Err(f) ==> (reply matches Err(e) && error_wraps(
                e,
                UNPROCESSABLE_ENTITY,
                "Failed to insert tag into database"@,
                f,
            )),
    {
        or_status(inserted, UNPROCESSABLE_ENTITY, "Failed to insert tag into database")
    }
}

/// The accounts whose tags a reader sees: its own (the nil account when
/// nobody is logged in) and the defaults held by the nil account.
pub fn get_tags(user: Option<UserId>) -> (owners: Vec<UserId>)
    ensures
        owners@ == seq![
            match user {
                Some(u) => u,
                None => NIL_USER_ID,
            },
            NIL_USER_ID,
        ],
{
    let user_id = match user {
        Some(u) => u,
        None => NIL_USER_ID,
    };
    vec![user_id, NIL_USER_ID]
}

/// Answers with the tags read, or "500" when the read failed.
pub fn tags_read<T>(tags: Result<Vec<T>, Failure>) -> (reply: Result<Vec<T>, ApiError>)
    ensures
        tags matches Ok(v) ==> reply == Ok::<Vec<T>, ApiError>(v),
        tags matches Err(f) ==> (reply matches Err(e) && error_wraps(
            e,
            INTERNAL_SERVER_ERROR,
            "Failed to grab tags from database"@,
            f,
        )),
{
    or_status(tags, INTERNAL_SERVER_ERROR, "Failed to grab tags from database")
}

/// Modifying a tag: the tag with the id is to be set to the new values,
/// whoever asks.
pub fn modify_tag<T>(id: i32, tag: T) -> (write: Write<T>)
    ensures
        write == (Write { target: WriteTarget::Tag(id), action: WriteAction::SetFields(tag) }),
{
    Write { target: WriteTarget::Tag(id), action: WriteAction::SetFields(tag) }
}

/// Deleting a tag: the tag with the id is to be marked deleted, whoever
/// asks. It stays in the database.
pub fn delete_tag(id: i32) -> (write: Write<()>)
    ensures
        write == (Write::<()> { target: WriteTarget::Tag(id), action: WriteAction::MarkDeleted }),
{
    Write { target: WriteTarget::Tag(id), action: WriteAction::MarkDeleted }
}

/// Answers a modification or deletion of a tag: success, or "422" when the
/// update failed.
pub fn tag_updated(updated: Result<(), Failure>) -> (reply: Result<(), ApiError>)
    ensures
        updated is Ok ==> reply is Ok,
        updated matches Err(f) ==> (reply matches Err(e) && error_wraps(
            e,
            UNPROCESSABLE_ENTITY,
            "Failed to update tag in database"@,
            f,
        )),
{
    or_status(updated, UNPROCESSABLE_ENTITY, "Failed to update tag in database")
}

// ---------------------------------------------------------------------------
// Time splits
// ---------------------------------------------------------------------------

/// Creating a time split, first step: the split is to be inserted for the
/// account, which gives its new id.
pub struct CreateTimeSplit {
    pub user_id: UserId,
    pub time_split: InsertableTimeSplit,
    pub timers: Vec<InsertableTimeSplitTimer>,
}

/// Creating a time split, second step: the numbered timers are to be
/// inserted under the new split, which gives the stored timers.
pub struct CreateTimeSplitTimers {
    pub id: i32,
    pub time_split: InsertableTimeSplit,
    pub rows: Vec<NewTimeSplitTimer>,
}

/// Starts creating a time split. Without a logged-in account the request is
/// answered "401 Unauthorized".
pub fn create_time_split(user: Option<UserId>, body: InsertablePackagedTimeSplit) -> (next: Result<
    CreateTimeSplit,
    ApiError,
>)
    ensures
        user is None ==> (next matches Err(e) && error_is(
            e,
            UNAUTHORIZED,
            "You need to be logged in to create a time split"@,
        )),
        user matches Some(u) ==> next == Ok::<CreateTimeSplit, ApiError>(
            CreateTimeSplit { user_id: u, time_split: body.time_split, timers: body.timers },
        ),
{
    let user_id = require_user(user, "You need to be logged in to create a time split")?;
    let InsertablePackagedTimeSplit { time_split, timers } = body;
    Ok(CreateTimeSplit { user_id, time_split, timers })
}

impl CreateTimeSplit {
    /// Takes the id the database gave the new split: the submitted timers
    /// are numbered from zero in their order and attached to it. A failed
    /// insert is answered "422".
    pub fn split_inserted(self, inserted: Result<i32, Failure>) -> (next: Result<
        CreateTimeSplitTimers,
        ApiError,
    >)
        ensures
            inserted matches Err(f) ==> (next matches Err(e) && error_wraps(
                e,
                UNPROCESSABLE_ENTITY,
                "Failed to insert time split into database"@,
                f,
            )),
            inserted matches Ok(id) ==> (next matches Ok(n) && {
                &&& n.id == id
                &&& n.time_split == self.time_split
                &&& n.rows.len() == self.timers.len()
                &&& forall|i: int|
                    0 <= i < n.rows.len() ==> {
                        &&& #[trigger] n.rows[i].timer == self.timers[i]
                        &&& n.rows[i].order_idx == i as i32
                        &&& n.rows[i].time_split_id == id
                    }
            }),
    {
        let id = or_status(inserted, UNPROCESSABLE_ENTITY, "Failed to insert time split into database")?;
        let rows = number_timers(self.timers, id);
        Ok(CreateTimeSplitTimers { id, time_split: self.time_split, rows })
    }
}

impl CreateTimeSplitTimers {
    /// Answers with the new split, under its new id, and the timers the
    /// database stored; a failed insert is answered "422".
    pub fn timers_inserted(self, inserted: Result<Vec<TimeSplitTimer>, Failure>) -> (reply: Result<
        PackagedTimeSplit,
        ApiError,
    >)
        ensures
            inserted matches Err(f) ==> (reply matches Err(e) && error_wraps(
                e,
                UNPROCESSABLE_ENTITY,
                "Failed to insert time split timers into database"@,
                f,
            )),
            inserted matches Ok(timers) ==> reply == Ok::<PackagedTimeSplit, ApiError>(
                PackagedTimeSplit {
                    time_split: TimeSplit {
                        id: self.id,
                        name: self.time_split.name,
                        description: self.time_split.description,
                    },
                    timers,
                },
            ),
    {
        let timers = or_status(
            inserted,
            UNPROCESSABLE_ENTITY,
            "Failed to insert time split timers into database",
        )?;
        let InsertableTimeSplit { name, description } = self.time_split;
        Ok(PackagedTimeSplit { time_split: TimeSplit { id: self.id, name, description }, timers })
    }
}

/// Reading time splits, first step: the splits that belong to one of
/// `owners` are to be read; when `hide_deleted` holds, those marked deleted
/// are left out.
pub struct GetTimeSplits {
    pub owners: Vec<UserId>,
    pub hide_deleted: bool,
}

/// Reading time splits, second step: the timers of the splits read are to
/// be read in the order `order`; when `hide_deleted` holds, those marked
/// deleted are left out.
pub struct GetTimeSplitTimers {
    pub time_splits: Vec<TimeSplit>,
    pub hide_deleted: bool,
    pub order: ReadOrder,
}

/// Starts reading time splits: those of the logged-in account (of the nil
/// account when nobody is logged in) and the default ones, which the nil
/// account holds, leaving out deleted ones.
pub fn get_time_splits(user: Option<UserId>) -> (next: GetTimeSplits)
    ensures
        next.owners@ == seq![
            match user {
                Some(u) => u,
                None => NIL_USER_ID,
            },
            NIL_USER_ID,
        ],
        next.hide_deleted,
{
    let user_id = match user {
        Some(u) => u,
        None => NIL_USER_ID,
    };
    GetTimeSplits { owners: vec![user_id, NIL_USER_ID], hide_deleted: true }
}

impl GetTimeSplits {
    /// Takes the splits read; a failed read is answered "500". Their timers
    /// are to be read next, by place in their split, leaving out deleted ones.
    pub fn splits_read(self, time_splits: Result<Vec<TimeSplit>, Failure>) -> (next: Result<
        GetTimeSplitTimers,
        ApiError,
    >)
        ensures
            time_splits matches Err(f) ==> (next matches Err(e) && error_wraps(
                e,
                INTERNAL_SERVER_ERROR,
                "Failed to retreive time splits from database"@,
                f,
            )),
            time_splits matches Ok(v) ==> next == Ok::<GetTimeSplitTimers, ApiError>(
                GetTimeSplitTimers { time_splits: v, hide_deleted: true, order: ReadOrder::PlaceAscending },
            ),
    {
        let time_splits = or_status(
            time_splits,
            INTERNAL_SERVER_ERROR,
            "Failed to retreive time splits from database",
        )?;
        Ok(GetTimeSplitTimers { time_splits, hide_deleted: true, order: ReadOrder::PlaceAscending })
    }
}

impl GetTimeSplitTimers {
    /// The ids of the splits read: the timers to read are those of these splits.
    pub fn split_ids(&self) -> (ids: Vec<i32>)
        ensures
            ids@ == split_ids(self.time_splits@),
    {
        let mut ids: Vec<i32> = Vec::new();
        let mut i: usize = 0;
        while i < self.time_splits.len()
            invariant
                i <= self.time_splits.len(),
                ids@ == split_ids(self.time_splits@.take(i as int)),
            decreases self.time_splits.len() - i,
        {
            ids.push(self.time_splits[i].id);
            i = i + 1;
            assert(split_ids(self.time_splits@.take(i as int)) =~= split_ids(
                self.time_splits@.take(i - 1),
            ).push(self.time_splits@[i - 1].id));
        }
        assert(self.time_splits@.take(i as int) =~= self.time_splits@);
        ids
    }

    /// Answers with each split read and its timers; a failed read is
    /// answered "500". Timers given in order of their place (as `order`
    /// asks) come back in that order under each split.
    pub fn timers_read(self, time_split_timers: Result<Vec<TimeSplitTimer>, Failure>) -> (reply:
        Result<Vec<PackagedTimeSplit>, ApiError>)
        ensures
            time_split_timers matches Err(f) ==> (reply matches Err(e) && error_wraps(
                e,
                INTERNAL_SERVER_ERROR,
                "Failed to retreive time split timers from database"@,
                f,
            )),
            time_split_timers matches Ok(timers) ==> (reply matches Ok(grouped) && {
                &&& grouped.len() == self.time_splits.len()
                &&& forall|k: int|
                    0 <= k < grouped.len() ==> {
                        &&& #[trigger] grouped[k].time_split == self.time_splits[k]
                        &&& grouped[k].timers@ == timers_of(
                            timers@,
                            split_ids(self.time_splits@),
                            k,
                        )
                    }
                &&& sorted_by_place(timers@) ==> forall|k: int|
                    0 <= k < grouped.len() ==> sorted_by_place(#[trigger] grouped[k].timers@)
            }),
    {
        let timers = or_status(
            time_split_timers,
            INTERNAL_SERVER_ERROR,
            "Failed to retreive time split timers from database",
        )?;
        let ghost given = timers@;
        let ghost splits = self.time_splits@;
        let ghost ids = split_ids(self.time_splits@);
        let grouped = group_time_split_timers(self.time_splits, timers);
        proof {
            if sorted_by_place(given) {
                assert forall|k: int| 0 <= k < grouped.len() implies sorted_by_place(
                    #[trigger] grouped[k].timers@,
                ) by {
                    assert(grouped[k].time_split == splits[k]);
                    assert(grouped[k].timers@ == timers_of(given, ids, k));
                    lemma_grouped_timers_keep_place_order(given, ids, k);
                }
            }
        }
        Ok(grouped)
    }
}

/// Modifying a time split: the split with the id is to be set to the new
/// values, whoever asks.
pub fn modify_time_split(id: i32, time_split: InsertableTimeSplit) -> (write: Write<
    InsertableTimeSplit,
>)
    ensures
        write == (Write {
            target: WriteTarget::TimeSplit(id),
            action: WriteAction::SetFields(time_split),
        }),
{
    Write { target: WriteTarget::TimeSplit(id), action: WriteAction::SetFields(time_split) }
}

/// Answers a modification of a time split: success, or "422" when the
/// update failed.
pub fn time_split_updated(updated: Result<(), Failure>) -> (reply: Result<(), ApiError>)
    ensures
        updated is Ok ==> reply is Ok,
        updated matches Err(f) ==> (reply matches Err(e) && error_wraps(
            e,
            UNPROCESSABLE_ENTITY,
            "Failed to update time split in database"@,
            f,
        )),
{
    or_status(updated, UNPROCESSABLE_ENTITY, "Failed to update time split in database")
}

/// Deleting a time split, first step: `write` marks the timers of the
/// split deleted. Nothing is removed from the database.
pub struct DeleteTimeSplit {
    pub id: i32,
    pub write: Write<()>,
}

/// Deleting a time split, second step: `write` marks the split itself
/// deleted.
pub struct DeleteTimeSplitItself {
    pub id: i32,
    pub write: Write<()>,
}

/// Starts deleting the time split with the id, whoever asks.
pub fn delete_time_split(id: i32) -> (next: DeleteTimeSplit)
    ensures
        next.id == id,
        next.write == (Write::<()> {
            target: WriteTarget::TimersOfTimeSplit(id),
            action: WriteAction::MarkDeleted,
        }),
{
    DeleteTimeSplit {
        id,
        write: Write { target: WriteTarget::TimersOfTimeSplit(id), action: WriteAction::MarkDeleted },
    }
}

impl DeleteTimeSplit {
    /// After the timers are marked, the split is to be marked; a failed
    /// update is answered "500" and the split is left as it was.
    pub fn timers_deleted(self, updated: Result<(), Failure>) -> (next: Result<
        DeleteTimeSplitItself,
        ApiError,
    >)
        ensures
            updated is Ok ==> next == Ok::<DeleteTimeSplitItself, ApiError>(
                DeleteTimeSplitItself {
                    id: self.id,
                    write: Write {
                        target: WriteTarget::TimeSplit(self.id),
                        action: WriteAction::MarkDeleted,
                    },
                },
            ),
            updated matches Err(f) ==> (next matches Err(e) && error_wraps(
                e,
                INTERNAL_SERVER_ERROR,
                "Failed to delete time split timers in database"@,
                f,
            )),
    {
        or_status(updated, INTERNAL_SERVER_ERROR, "Failed to delete time split timers in database")?;
        Ok(DeleteTimeSplitItself {
            id: self.id,
            write: Write { target: WriteTarget::TimeSplit(self.id), action: WriteAction::MarkDeleted },
        })
    }
}

impl DeleteTimeSplitItself {
    /// Answers the deletion: success, or "500" when the update failed.
    pub fn split_deleted(self, updated: Result<(), Failure>) -> (reply: Result<(), ApiError>)
        ensures
            updated is Ok ==> reply is Ok,
            updated matches Err(f) ==> (reply matches Err(e) && error_wraps(
                e,
                INTERNAL_SERVER_ERROR,
                "Failed to delete time split in database"@,
                f,
            )),
    {
        or_status(updated, INTERNAL_SERVER_ERROR, "Failed to delete time split in database")
    }
}


// ---------------------------------------------------------------------------
// Timers
// ---------------------------------------------------------------------------

/// A timesheet entry as submitted: when it ran, the tags on it, and the
/// time split timer it ran.
#[derive(Debug)]
pub struct InsertableTimer {
    pub start_time: Timestamptz,
    pub end_time: Timestamptz,
    pub tags: Vec<i32>,
    pub time_split_timer: i32,
}

/// A timesheet entry as answered, with data about the time split timer it
/// ran.
#[derive(Debug)]
pub struct Timer<D> {
    pub time_split_timer: Option<i32>,
    pub start_time: Timestamptz,
    pub end_time: Timestamptz,
    pub tags: Vec<Option<i32>>,
    pub time_split_data: D,
}

impl InsertableTimer {
    /// A copy of the entry, to be written to the database while this one
    /// is kept for the answer.
    pub fn duplicate(&self) -> (copy: InsertableTimer)
        ensures
            copy.start_time == self.start_time,
            copy.end_time == self.end_time,
            copy.tags@ == self.tags@,
            copy.time_split_timer == self.time_split_timer,
    {
        let tags = self.tags.clone();
        assert(tags@ =~= self.tags@);
        InsertableTimer {
            start_time: self.start_time,
            end_time: self.end_time,
            tags,
            time_split_timer: self.time_split_timer,
        }
    }

    /// The answer for a written entry: the entry as submitted, its tags
    /// each wrapped as present, with the data of its time split timer.
    pub fn into_timer<D>(self, time_split_data: D) -> (timer: Timer<D>)
        ensures
            timer.time_split_timer == Some(self.time_split_timer),
            timer.start_time == self.start_time,
            timer.end_time == self.end_time,
            timer.tags@ == self.tags@.map_values(|t: i32| Some(t)),
            timer.time_split_data == time_split_data,
    {
        let mut tags: Vec<Option<i32>> = Vec::new();
        let mut i: usize = 0;
        while i < self.tags.len()
            invariant
                i <= self.tags.len(),
                tags@ == self.tags@.take(i as int).map_values(|t: i32| Some(t)),
            decreases self.tags.len() - i,
        {
            tags.push(Some(self.tags[i]));
            i = i + 1;
            assert(self.tags@.take(i as int).map_values(|t: i32| Some(t)) =~= self.tags@.take(
                i - 1,
            ).map_values(|t: i32| Some(t)).push(Some(self.tags@[i - 1])));
        }
        assert(self.tags@.take(i as int) =~= self.tags@);
        Timer {
            time_split_timer: Some(self.time_split_timer),
            start_time: self.start_time,
            end_time: self.end_time,
            tags,
            time_split_data,
        }
    }
}

/// Posting a timer, first step: the data of the time split timer the entry
/// names is to be looked up.
pub struct PostTimer {
    pub user_id: UserId,
    pub timesheet_data: InsertableTimer,
}

/// Posting a timer, second step: the entry is to be inserted into the
/// account's timesheet.
pub struct PostTimerInsert<D> {
    pub user_id: UserId,
    pub timesheet_data: InsertableTimer,
    pub time_split_data: D,
}

/// Starts posting a timer. Without a logged-in account the request is
/// answered "401 Unauthorized".
pub fn post_timer(user: Option<UserId>, timesheet_data: InsertableTimer) -> (next: Result<
    PostTimer,
    ApiError,
>)
    ensures
        user is None ==> (next matches Err(e) && error_is(
            e,
            UNAUTHORIZED,
            "You need to be logged in to create a timer"@,
        )),
        user matches Some(u) ==> next == Ok::<PostTimer, ApiError>(
            PostTimer { user_id: u, timesheet_data },
        ),
{
    let user_id = require_user(user, "You need to be logged in to create a timer")?;
    Ok(PostTimer { user_id, timesheet_data })
}

impl PostTimer {
    /// The time split timer to look up.
    pub fn time_split_timer(&self) -> (id: i32)
        ensures
            id == self.timesheet_data.time_split_timer,
    {
        self.timesheet_data.time_split_timer
    }

    /// Takes the lookup: a failed lookup is answered "500", a time split
    /// timer that does not exist "404"; otherwise the entry is to be inserted.
    pub fn time_split_data_found<D>(self, found: Result<Option<D>, Failure>) -> (next: Result<
        PostTimerInsert<D>,
        ApiError,
    >)
        ensures
            found matches Err(f) ==> (next matches Err(e) && error_wraps(
                e,
                INTERNAL_SERVER_ERROR,
                "Failed to grab time_split for inserted timesheet"@,
                f,
            )),
            found matches Ok(None) ==> (next matches Err(e) && error_is(
                e,
                NOT_FOUND,
                "Couldn't find a time_split for that time_split_timer"@,
            )),
            found matches Ok(Some(d)) ==> next == Ok::<PostTimerInsert<D>, ApiError>(
                PostTimerInsert {
                    user_id: self.user_id,
                    timesheet_data: self.timesheet_data,
                    time_split_data: d,
                },
            ),
    {
        let found = or_status(
            found,
            INTERNAL_SERVER_ERROR,
            "Failed to grab time_split for inserted timesheet",
        )?;
        let time_split_data = require_found(
            found,
            "Couldn't find a time_split for that time_split_timer",
        )?;
        Ok(PostTimerInsert { user_id: self.user_id, timesheet_data: self.timesheet_data, time_split_data })
    }
}

impl<D> PostTimerInsert<D> {
    /// The entry to insert, for the account `user_id`.
    pub fn row(&self) -> (row: InsertableTimer)
        ensures
            row.start_time == self.timesheet_data.start_time,
            row.end_time == self.timesheet_data.end_time,
            row.tags@ == self.timesheet_data.tags@,
            row.time_split_timer == self.timesheet_data.time_split_timer,
    {
        self.timesheet_data.duplicate()
    }

    /// Answers with the entry and its time split data, or "422" when the
    /// insert failed.
    pub fn inserted(self, inserted: Result<(), Failure>) -> (reply: Result<Timer<D>, ApiError>)
        ensures
            inserted matches Err(f) ==> (reply matches Err(e) && error_wraps(
                e,
                UNPROCESSABLE_ENTITY,
                "Failed to insert timer into timesheet"@,
                f,
            )),
            inserted is Ok ==> (reply matches Ok(timer) && {
                &&& timer.time_split_timer == Some(self.timesheet_data.time_split_timer)
                &&& timer.start_time == self.timesheet_data.start_time
                &&& timer.end_time == self.timesheet_data.end_time
                &&& timer.tags@ == self.timesheet_data.tags@.map_values(|t: i32| Some(t))
                &&& timer.time_split_data == self.time_split_data
            }),
    {
        or_status(inserted, UNPROCESSABLE_ENTITY, "Failed to insert timer into timesheet")?;
        Ok(self.timesheet_data.into_timer(self.time_split_data))
    }
}

/// Which timesheet entries to read: those of `owner`, or of every account
/// when it is `None`, in the order `order`, at most `limit` of them.
pub struct TimerQuery {
    pub owner: Option<UserId>,
    pub order: ReadOrder,
    pub limit: i64,
}

/// Starts reading timers: the entry of the logged-in account (of any
/// account when nobody is logged in) that started last is read.
pub fn get_timers(user: Option<UserId>) -> (query: TimerQuery)
    ensures
        query.owner == user,
        query.order == ReadOrder::StartTimeDescending,
        query.limit == 1,
{
    TimerQuery { owner: user, order: ReadOrder::StartTimeDescending, limit: 1 }
}

/// Nanoseconds after the Unix epoch at which an entry started.
pub open spec fn start_nanos<D>(timer: Timer<D>) -> int {
    timer.start_time.0.nanos()
}

/// Whether `newest` is one of `timers` and none of them started later.
pub open spec fn is_newest<D>(newest: Timer<D>, timers: Seq<Timer<D>>) -> bool {
    &&& exists|i: int| 0 <= i < timers.len() && timers[i] == newest
    &&& forall|i: int| 0 <= i < timers.len() ==> start_nanos(#[trigger] timers[i]) <= start_nanos(newest)
}

/// The entry found newest started at the latest instant of all entries
/// given: its start instant, counted in nanoseconds from the Unix epoch,
/// is no earlier than that of any entry given, and it is one of them.
pub proof fn lemma_newest_started_last<D>(newest: Timer<D>, timers: Seq<Timer<D>>)
    requires
        is_newest(newest, timers),
    ensures
        exists|i: int| 0 <= i < timers.len() && timers[i] == newest,
        forall|i: int|
            0 <= i < timers.len() ==> (#[trigger] timers[i]).start_time.0.second * 1_000_000_000
                + timers[i].start_time.0.nanosecond <= newest.start_time.0.second * 1_000_000_000
                + newest.start_time.0.nanosecond,
{
    assert forall|i: int| 0 <= i < timers.len() implies (#[trigger] timers[i]).start_time.0.second
        * 1_000_000_000 + timers[i].start_time.0.nanosecond <= newest.start_time.0.second
        * 1_000_000_000 + newest.start_time.0.nanosecond by {
        assert(start_nanos(timers[i]) <= start_nanos(newest));
    }
}

/// The start of an entry in nanoseconds after the Unix epoch.
fn start_nanos_of<D>(timer: &Timer<D>) -> (nanos: i128)
    ensures
        nanos == start_nanos(*timer),
{
    timer.start_time.0.second as i128 * 1_000_000_000 + timer.start_time.0.nanosecond as i128
}

/// The entry that started last (the first of them, when several started at
/// that instant), or `None` when there is no entry.
pub fn newest_timer<D>(timers: Vec<Timer<D>>) -> (newest: Option<Timer<D>>)
    ensures
        newest is None <==> timers.len() == 0,
        newest matches Some(t) ==> is_newest(t, timers@),
        newest matches Some(t) ==> forall|i: int|
            0 <= i < timers.len() ==> (#[trigger] timers[i]).start_time.0.second * 1_000_000_000
                + timers[i].start_time.0.nanosecond <= t.start_time.0.second * 1_000_000_000
                + t.start_time.0.nanosecond,
{
    let ghost all = timers@;
    let mut best: Option<Timer<D>> = None;
    let mut best_nanos: i128 = 0;
    for t in it: timers.into_iter()
        invariant
            it.seq() == all,
            best is None <==> it.index() == 0,
            best matches Some(b) ==> {
                &&& best_nanos == start_nanos(b)
                &&& exists|i: int| 0 <= i < it.index() && all[i] == b
                &&& forall|i: int| 0 <= i < it.index() ==> start_nanos(#[trigger] all[i]) <= start_nanos(b)
            },
    {
        let ghost j = it.index();
        assert(t == all[j]);
        let nanos = start_nanos_of(&t);
        let later = match &best {
            None => true,
            Some(_) => nanos > best_nanos,
        };
        if later {
            best = Some(t);
            best_nanos = nanos;
        }
    }
    proof {
        if best is Some {
            lemma_newest_started_last(best->0, all);
        }
    }
    best
}

/// Answers with the entry read that started last (none when none was read),
/// or "500" when the read failed.
pub fn timers_read<D>(timers: Result<Vec<Timer<D>>, Failure>) -> (reply: Result<Vec<Timer<D>>, ApiError>)
    ensures
        timers matches Ok(v) ==> (reply matches Ok(w) && {
            &&& w.len() <= 1
            &&& w.len() == 0 <==> v.len() == 0
            &&& w.len() == 1 ==> is_newest(w[0], v@)
            &&& w.len() == 1 ==> forall|i: int|
                0 <= i < v.len() ==> (#[trigger] v[i]).start_time.0.second * 1_000_000_000
                    + v[i].start_time.0.nanosecond <= w[0].start_time.0.second * 1_000_000_000
                    + w[0].start_time.0.nanosecond
        }),
        timers matches Err(f) ==> (reply matches Err(e) && error_wraps(
            e,
            INTERNAL_SERVER_ERROR,
            "Failed to get requested timers"@,
            f,
        )),
{
    let timers = or_status(timers, INTERNAL_SERVER_ERROR, "Failed to get requested timers")?;
    match newest_timer(timers) {
        Some(t) => Ok(vec![t]),
        None => Ok(Vec::new()),
    }
}

/// Modifying a timer, first step: the data of the time split timer the
/// entry names is to be looked up.
pub struct ModifyTimer {
    pub user_id: UserId,
    pub timesheet_data: InsertableTimer,
}

/// Modifying a timer, second step: the account's entry that started at the
/// entry's start time is to be set to the entry.
pub struct ModifyTimerUpdate<D> {
    pub user_id: UserId,
    pub timesheet_data: InsertableTimer,
    pub time_split_data: D,
}

/// Starts modifying a timer. Without a logged-in account the request is
/// answered "401 Unauthorized".
pub fn modify_timer(user: Option<UserId>, timesheet_data: InsertableTimer) -> (next: Result<
    ModifyTimer,
    ApiError,
>)
    ensures
        user is None ==> (next matches Err(e) && error_is(
            e,
            UNAUTHORIZED,
            "You need to be logged in to modify a timer"@,
        )),
        user matches Some(u) ==> next == Ok::<ModifyTimer, ApiError>(
            ModifyTimer { user_id: u, timesheet_data },
        ),
{
    let user_id = require_user(user, "You need to be logged in to modify a timer")?;
    Ok(ModifyTimer { user_id, timesheet_data })
}

impl ModifyTimer {
    /// The time split timer to look up.
    pub fn time_split_timer(&self) -> (id: i32)
        ensures
            id == self.timesheet_data.time_split_timer,
    {
        self.timesheet_data.time_split_timer
    }

    /// Takes the lookup: a failed lookup is answered "500", a time split
    /// timer that does not exist "404"; otherwise the entry is to be updated.
    pub fn time_split_data_found<D>(self, found: Result<Option<D>, Failure>) -> (next: Result<
        ModifyTimerUpdate<D>,
        ApiError,
    >)
        ensures
            found matches Err(f) ==> (next matches Err(e) && error_wraps(
                e,
                INTERNAL_SERVER_ERROR,
                "Failed to grab time_split for updated timesheet"@,
                f,
            )),
            found matches Ok(None) ==> (next matches Err(e) && error_is(
                e,
                NOT_FOUND,
                "Couldn't find a time_split for that time_split_timer"@,
            )),
            found matches Ok(Some(d)) ==> next == Ok::<ModifyTimerUpdate<D>, ApiError>(
                ModifyTimerUpdate {
                    user_id: self.user_id,
                    timesheet_data: self.timesheet_data,
                    time_split_data: d,
                },
            ),
    {
        let found = or_status(
            found,
            INTERNAL_SERVER_ERROR,
            "Failed to grab time_split for updated timesheet",
        )?;
        let time_split_data = require_found(
            found,
            "Couldn't find a time_split for that time_split_timer",
        )?;
        Ok(ModifyTimerUpdate { user_id: self.user_id, timesheet_data: self.timesheet_data, time_split_data })
    }
}

impl<D> ModifyTimerUpdate<D> {
    /// The new values of the entry, which is found by `user_id` and the
    /// entry's start time.
    pub fn row(&self) -> (row: InsertableTimer)
        ensures
            row.start_time == self.timesheet_data.start_time,
            row.end_time == self.timesheet_data.end_time,
            row.tags@ == self.timesheet_data.tags@,
            row.time_split_timer == self.timesheet_data.time_split_timer,
    {
        self.timesheet_data.duplicate()
    }

    /// Answers with the entry and its time split data, or "422" when the
    /// update failed.
    pub fn updated(self, updated: Result<(), Failure>) -> (reply: Result<Timer<D>, ApiError>)
        ensures
            updated matches Err(f) ==> (reply matches Err(e) && error_wraps(
                e,
                UNPROCESSABLE_ENTITY,
                "Failed to update timer in timesheet"@,
                f,
            )),
            updated is Ok ==> (reply matches Ok(timer) && {
                &&& timer.time_split_timer == Some(self.timesheet_data.time_split_timer)
                &&& timer.start_time == self.timesheet_data.start_time
                &&& timer.end_time == self.timesheet_data.end_time
                &&& timer.tags@ == self.timesheet_data.tags@.map_values(|t: i32| Some(t))
                &&& timer.time_split_data == self.time_split_data
            }),
    {
        or_status(updated, UNPROCESSABLE_ENTITY, "Failed to update timer in timesheet")?;
        Ok(self.timesheet_data.into_timer(self.time_split_data))
    }
}

} // verus!
