use lockinspiel::api::{ApiError, Failure, INTERNAL_SERVER_ERROR, NIL_USER_ID, NOT_FOUND, UNAUTHORIZED, UNPROCESSABLE_ENTITY};
use lockinspiel::profile::{
    create_profile, delete_avatar, get_profile, put_avatar, update_profile, user_profile_found,
    DbUserProfile, UrlLocation, UrlOrigin,
};
use lockinspiel::sql_types::{Instant, Json, Timestamptz};
use lockinspiel::time_split::{InsertablePackagedTimeSplit, InsertableTimeSplit, TimeSplit, TimeSplitResponses, TimeSplitVoidResponses};
use lockinspiel::timekeeper::{
    create_tag, create_time_split, delete_time_split, get_tags, get_time_splits, get_timers,
    delete_tag, modify_tag, modify_timer, newest_timer, post_timer, tag_updated, tags_read, timers_read,
    InsertableTimer, ReadOrder, Timer, WriteAction, WriteTarget,
};
use lockinspiel::user::{
    InsertableUserProfile, PutAvatarQuery, UserProfile, UserProfileChangeset, UserSchemaResponsesUrl,
    UserSchemaResponsesVoid, UserSchemaUserProfileResponse,
};

fn failure(report: &str) -> Failure {
    Failure { report: report.to_string() }
}

fn assert_error(e: &ApiError, status: u16, message: &str) {
    assert_eq!(e.status, status);
    assert_eq!(e.message, message);
}

fn timesheet() -> InsertableTimer {
    InsertableTimer {
        start_time: Timestamptz(Instant { second: 1_700_000_000, nanosecond: 0 }),
        end_time: Timestamptz(Instant { second: 1_700_001_500, nanosecond: 0 }),
        tags: vec![3, 9],
        time_split_timer: 35,
    }
}

#[test]
fn create_tag_needs_login() {
    let e = create_tag::<&str>(None, "tag").err().unwrap();
    assert_error(&e, UNAUTHORIZED, "You need to be logged in to create a tag");
    assert!(e.cause.is_none());
}

#[test]
fn create_tag_inserts_for_account() {
    let step = create_tag(Some(7), "tag").ok().unwrap();
    assert_eq!(step.user_id, 7);
    assert_eq!(step.tag, "tag");
    assert_eq!(step.inserted::<i32>(Ok(12)).ok(), Some(12));
}

#[test]
fn create_tag_insert_failure_is_422() {
    let step = create_tag(Some(7), "tag").ok().unwrap();
    let e = step.inserted::<i32>(Err(failure("null id"))).err().unwrap();
    assert_error(&e, UNPROCESSABLE_ENTITY, "Failed to insert tag into database");
    assert_eq!(e.cause.as_deref(), Some("null id"));
}

#[test]
fn get_tags_reads_own_and_default_tags() {
    assert_eq!(get_tags(Some(42)), vec![42, NIL_USER_ID]);
    assert_eq!(get_tags(None), vec![NIL_USER_ID, NIL_USER_ID]);
    let e = tags_read::<i32>(Err(failure("permission denied"))).err().unwrap();
    assert_error(&e, INTERNAL_SERVER_ERROR, "Failed to grab tags from database");
}

#[test]
fn tag_update_failure_is_422() {
    assert!(tag_updated(Ok(())).is_ok());
    let e = tag_updated(Err(failure("x"))).err().unwrap();
    assert_error(&e, UNPROCESSABLE_ENTITY, "Failed to update tag in database");
}

#[test]
fn create_time_split_needs_login() {
    let body = InsertablePackagedTimeSplit::placeholder();
    let e = create_time_split(None, body).err().unwrap();
    assert_error(&e, UNAUTHORIZED, "You need to be logged in to create a time split");
}

#[test]
fn create_time_split_full_flow() {
    let body = InsertablePackagedTimeSplit::placeholder();
    let step = create_time_split(Some(1), body).ok().unwrap();
    assert_eq!(step.user_id, 1);
    let step = step.split_inserted(Ok(501)).ok().unwrap();
    assert_eq!(step.id, 501);
    assert_eq!(step.rows.len(), 1);
    assert_eq!(step.rows[0].order_idx, 0);
    assert_eq!(step.rows[0].time_split_id, 501);
    let packaged = step.timers_inserted(Ok(Vec::new())).ok().unwrap();
    assert_eq!(packaged.time_split.id, 501);
    assert_eq!(packaged.time_split.name, "Pomodoro");
    assert_eq!(packaged.time_split.description.as_deref(), Some("The certified hood classic"));
}

#[test]
fn create_time_split_insert_failures_are_422() {
    let step = create_time_split(Some(1), InsertablePackagedTimeSplit::placeholder()).ok().unwrap();
    let e = step.split_inserted(Err(failure("sequence"))).err().unwrap();
    assert_error(&e, UNPROCESSABLE_ENTITY, "Failed to insert time split into database");
    let step = create_time_split(Some(1), InsertablePackagedTimeSplit::placeholder()).ok().unwrap();
    let step = step.split_inserted(Ok(2)).ok().unwrap();
    let e = step.timers_inserted(Err(failure("fk"))).err().unwrap();
    assert_error(&e, UNPROCESSABLE_ENTITY, "Failed to insert time split timers into database");
}

#[test]
fn get_time_splits_flow() {
    assert_eq!(get_time_splits(Some(9)).owners, vec![9, NIL_USER_ID]);
    assert!(get_time_splits(Some(9)).hide_deleted);
    assert_eq!(get_time_splits(None).owners, vec![NIL_USER_ID, NIL_USER_ID]);
    let e = get_time_splits(None).splits_read(Err(failure("x"))).err().unwrap();
    assert_error(&e, INTERNAL_SERVER_ERROR, "Failed to retreive time splits from database");
    let splits = vec![TimeSplit::placeholder(), TimeSplit { id: 4, name: "b".to_string(), description: None }];
    let step = get_time_splits(None).splits_read(Ok(splits)).ok().unwrap();
    assert_eq!(step.split_ids(), vec![98, 4]);
    assert!(step.hide_deleted);
    assert_eq!(step.order, ReadOrder::PlaceAscending);
    let e = step.timers_read(Err(failure("y"))).err().unwrap();
    assert_error(&e, INTERNAL_SERVER_ERROR, "Failed to retreive time split timers from database");
}

#[test]
fn delete_time_split_marks_timers_then_split() {
    let step = delete_time_split(3);
    assert_eq!(step.id, 3);
    assert_eq!(step.write.target, WriteTarget::TimersOfTimeSplit(3));
    assert!(matches!(step.write.action, WriteAction::MarkDeleted));
    let e = delete_time_split(3).timers_deleted(Err(failure("x"))).err().unwrap();
    assert_error(&e, INTERNAL_SERVER_ERROR, "Failed to delete time split timers in database");
    let step = step.timers_deleted(Ok(())).ok().unwrap();
    assert_eq!(step.id, 3);
    assert_eq!(step.write.target, WriteTarget::TimeSplit(3));
    assert!(matches!(step.write.action, WriteAction::MarkDeleted));
    let e = delete_time_split(3).timers_deleted(Ok(())).ok().unwrap().split_deleted(Err(failure("y"))).err().unwrap();
    assert_error(&e, INTERNAL_SERVER_ERROR, "Failed to delete time split in database");
    assert!(step.split_deleted(Ok(())).is_ok());
}

#[test]
fn post_timer_needs_login() {
    let e = post_timer(None, timesheet()).err().unwrap();
    assert_error(&e, UNAUTHORIZED, "You need to be logged in to create a timer");
}

#[test]
fn post_timer_unknown_split_timer_is_404() {
    let step = post_timer(Some(1), timesheet()).ok().unwrap();
    assert_eq!(step.time_split_timer(), 35);
    let e = step.time_split_data_found::<&str>(Ok(None)).err().unwrap();
    assert_error(&e, NOT_FOUND, "Couldn't find a time_split for that time_split_timer");
    let step = post_timer(Some(1), timesheet()).ok().unwrap();
    let e = step.time_split_data_found::<&str>(Err(failure("db"))).err().unwrap();
    assert_error(&e, INTERNAL_SERVER_ERROR, "Failed to grab time_split for inserted timesheet");
}

#[test]
fn post_timer_answers_with_entry() {
    let step = post_timer(Some(1), timesheet()).ok().unwrap();
    let step = step.time_split_data_found(Ok(Some("pomodoro"))).ok().unwrap();
    let row = step.row();
    assert_eq!(row.tags, vec![3, 9]);
    assert_eq!(step.user_id, 1);
    let timer = step.inserted(Ok(())).ok().unwrap();
    assert_eq!(timer.time_split_timer, Some(35));
    assert_eq!(timer.tags, vec![Some(3), Some(9)]);
    assert_eq!(timer.start_time, timesheet().start_time);
    assert_eq!(timer.end_time, timesheet().end_time);
    assert_eq!(timer.time_split_data, "pomodoro");
}

#[test]
fn post_timer_insert_failure_is_422() {
    let step = post_timer(Some(1), timesheet()).ok().unwrap();
    let step = step.time_split_data_found(Ok(Some(()))).ok().unwrap();
    let e = step.inserted(Err(failure("dup"))).err().unwrap();
    assert_error(&e, UNPROCESSABLE_ENTITY, "Failed to insert timer into timesheet");
}

#[test]
fn modify_timer_flow() {
    let e = modify_timer(None, timesheet()).err().unwrap();
    assert_error(&e, UNAUTHORIZED, "You need to be logged in to modify a timer");
    let step = modify_timer(Some(2), timesheet()).ok().unwrap();
    let e = step.time_split_data_found::<u8>(Err(failure("db"))).err().unwrap();
    assert_error(&e, INTERNAL_SERVER_ERROR, "Failed to grab time_split for updated timesheet");
    let step = modify_timer(Some(2), timesheet()).ok().unwrap().time_split_data_found(Ok(Some(5u8))).ok().unwrap();
    let e = step.updated(Err(failure("x"))).err().unwrap();
    assert_error(&e, UNPROCESSABLE_ENTITY, "Failed to update timer in timesheet");
    let step = modify_timer(Some(2), timesheet()).ok().unwrap().time_split_data_found(Ok(Some(5u8))).ok().unwrap();
    let timer = step.updated(Ok(())).ok().unwrap();
    assert_eq!(timer.tags, vec![Some(3), Some(9)]);
}

#[test]
fn get_timers_reads_newest_entry() {
    let q = get_timers(Some(4));
    assert_eq!((q.owner, q.limit), (Some(4), 1));
    assert_eq!(q.order, ReadOrder::StartTimeDescending);
    assert_eq!(get_timers(None).owner, None);
    assert_eq!(get_timers(None).order, ReadOrder::StartTimeDescending);
    let e = timers_read::<u8>(Err(failure("x"))).err().unwrap();
    assert_error(&e, INTERNAL_SERVER_ERROR, "Failed to get requested timers");
}

fn entry(second: i64, nanosecond: i32, data: u8) -> Timer<u8> {
    Timer {
        time_split_timer: Some(35),
        start_time: Timestamptz(Instant { second, nanosecond }),
        end_time: Timestamptz(Instant { second: second + 60, nanosecond: 0 }),
        tags: vec![],
        time_split_data: data,
    }
}

#[test]
fn timers_read_keeps_the_latest_start() {
    let read = timers_read(Ok(vec![entry(100, 0, 1), entry(300, 5, 2), entry(-50, -7, 3), entry(300, 4, 4)]))
        .ok()
        .unwrap();
    assert_eq!(read.len(), 1);
    assert_eq!(read[0].time_split_data, 2);
    assert!(timers_read::<u8>(Ok(vec![])).ok().unwrap().is_empty());
    let only = timers_read(Ok(vec![entry(-1, -500, 9)])).ok().unwrap();
    assert_eq!(only[0].time_split_data, 9);
}

#[test]
fn newest_timer_takes_the_first_of_equal_starts() {
    let newest = newest_timer(vec![entry(7, 0, 1), entry(7, 0, 2), entry(6, 999_999_999, 3)]).unwrap();
    assert_eq!(newest.time_split_data, 1);
    assert!(newest_timer::<u8>(vec![]).is_none());
}

#[test]
fn tag_writes_set_or_mark() {
    let w = modify_tag(5, "new name");
    assert_eq!(w.target, WriteTarget::Tag(5));
    assert!(matches!(w.action, WriteAction::SetFields("new name")));
    let w = delete_tag(6);
    assert_eq!(w.target, WriteTarget::Tag(6));
    assert!(matches!(w.action, WriteAction::MarkDeleted));
}

#[test]
fn profile_requests_need_login() {
    assert_error(&create_profile(None, InsertableUserProfile::placeholder()).err().unwrap(), UNAUTHORIZED,
        "You need to be logged in to create a user profile");
    assert_error(&get_profile(None).err().unwrap(), UNAUTHORIZED, "You need to be logged in to get your user profile");
    assert_error(&update_profile(None, UserProfileChangeset::placeholder()).err().unwrap(), UNAUTHORIZED,
        "You need to be logged in to update your user profile");
    assert_error(&put_avatar(None, PutAvatarQuery::placeholder()).err().unwrap(), UNAUTHORIZED,
        "You need to be logged in to updated your user profile");
    assert_error(&delete_avatar(None).err().unwrap(), UNAUTHORIZED, "You need to be logged in to update your user profile");
}

#[test]
fn user_profile_found_outcomes() {
    let e = user_profile_found(Ok(None)).err().unwrap();
    assert_error(&e, NOT_FOUND, "Failed to find user profile in database");
    let e = user_profile_found(Err(failure("x"))).err().unwrap();
    assert_error(&e, UNPROCESSABLE_ENTITY, "Failed to insert user profile into database");
}

#[test]
fn into_user_profile_resolves_avatar_only_when_stored() {
    let stored = DbUserProfile { user_id: 5, display_name: "A".to_string(), bio: "B".to_string(), avatar_location: None };
    let profile = stored.into_user_profile(Some("ignored".to_string()));
    assert_eq!(profile.avatar_location, None);
    let stored = DbUserProfile {
        user_id: 5,
        display_name: "A".to_string(),
        bio: "B".to_string(),
        avatar_location: Some(Json(UrlLocation { location: UrlOrigin::S3, path: "avatars/x.png".to_string() })),
    };
    let profile = stored.into_user_profile(Some("https://cdn/x.png".to_string()));
    assert_eq!(profile.avatar_location.as_deref(), Some("https://cdn/x.png"));
    assert_eq!(profile.user_id, 5);
}

#[test]
fn put_avatar_builds_path_from_account_uuid() {
    let id: u128 = 0x0123_4567_89ab_cdef_0123_4567_89ab_cdef;
    let step = put_avatar(Some(id), PutAvatarQuery::placeholder()).ok().unwrap();
    let stored = DbUserProfile {
        user_id: id,
        display_name: "A".to_string(),
        bio: "B".to_string(),
        avatar_location: Some(Json(UrlLocation { location: UrlOrigin::S3, path: "avatars/old.jpg".to_string() })),
    };
    let step = step.profile_found(Ok(Some(stored))).ok().unwrap();
    assert_eq!(step.old_location.as_ref().map(|l| l.path.as_str()), Some("avatars/old.jpg"));
    let step = step.cleared(Ok(())).ok().unwrap();
    assert_eq!(step.user_id, id);
    assert_eq!(step.url_location.location, UrlOrigin::S3);
    assert_eq!(step.url_location.path, "avatars/01234567-89ab-cdef-0123-456789abcdef.png");
    assert_eq!(step.content_type, "image/png");
    let step = step.stored(Ok(())).ok().unwrap();
    assert_eq!(step.signed("https://upload".to_string()).url, "https://upload");
}

#[test]
fn put_avatar_propagates_delete_error() {
    let step = put_avatar(Some(1), PutAvatarQuery::placeholder()).ok().unwrap();
    let stored = DbUserProfile { user_id: 1, display_name: String::new(), bio: String::new(), avatar_location: None };
    let step = step.profile_found(Ok(Some(stored))).ok().unwrap();
    assert!(step.old_location.is_none());
    let e = step.cleared(Err(ApiError { status: 502, message: "store down".to_string(), cause: None })).err().unwrap();
    assert_eq!(e.status, 502);
}

#[test]
fn delete_avatar_flow() {
    let step = delete_avatar(Some(8)).ok().unwrap();
    let e = delete_avatar(Some(8)).ok().unwrap().profile_found(Ok(None)).err().unwrap();
    assert_error(&e, NOT_FOUND, "Failed to find user profile in database");
    let stored = DbUserProfile { user_id: 8, display_name: String::new(), bio: String::new(), avatar_location: None };
    let step = step.profile_found(Ok(Some(stored))).ok().unwrap();
    let step = step.cleared(Ok(())).ok().unwrap();
    assert_eq!(step.user_id, 8);
    let e = delete_avatar(Some(8)).ok().unwrap()
        .profile_found(Ok(Some(DbUserProfile { user_id: 8, display_name: String::new(), bio: String::new(), avatar_location: None })))
        .ok().unwrap().cleared(Ok(())).ok().unwrap().stored(Err(failure("x"))).err().unwrap();
    assert_error(&e, UNPROCESSABLE_ENTITY, "Failed to insert user profile into database");
    assert!(step.stored(Ok(())).is_ok());
}

#[test]
fn deleting_the_avatar_twice_deletes_once() {
    let with_avatar = DbUserProfile {
        user_id: 8,
        display_name: "A".to_string(),
        bio: "B".to_string(),
        avatar_location: Some(Json(UrlLocation { location: UrlOrigin::S3, path: "avatars/x.png".to_string() })),
    };
    let first = delete_avatar(Some(8)).ok().unwrap().profile_found(Ok(Some(with_avatar))).ok().unwrap();
    assert_eq!(first.old_location.as_ref().map(|l| l.path.as_str()), Some("avatars/x.png"));
    let store = first.cleared(Ok(())).ok().unwrap();
    assert!(store.avatar_location.is_none());
    let after = DbUserProfile {
        user_id: 8,
        display_name: "A".to_string(),
        bio: "B".to_string(),
        avatar_location: store.avatar_location,
    };
    let second = delete_avatar(Some(8)).ok().unwrap().profile_found(Ok(Some(after))).ok().unwrap();
    assert!(second.old_location.is_none());
    let store = second.cleared(Ok(())).ok().unwrap();
    assert!(store.avatar_location.is_none());
}

#[test]
fn responses_split_client_and_service_faults() {
    let client = ApiError { status: 404, message: "gone".to_string(), cause: None };
    assert!(matches!(TimeSplitVoidResponses::from_result(Err(client)), TimeSplitVoidResponses::YourFault(b) if b.message == "gone"));
    let service = ApiError { status: 500, message: "down".to_string(), cause: None };
    assert!(matches!(UserSchemaResponsesVoid::from_result(Err(service)), UserSchemaResponsesVoid::OurFault(b) if b.message == "down"));
    assert!(matches!(TimeSplitResponses::from_result(Ok(lockinspiel::time_split::PackagedTimeSplit::placeholder())), TimeSplitResponses::Success(_)));
    assert!(matches!(UserSchemaResponsesUrl::from_result(Err(ApiError { status: 401, message: "m".to_string(), cause: None })), UserSchemaResponsesUrl::YourFault(_)));
    assert!(matches!(UserSchemaUserProfileResponse::from_result(Ok(UserProfile::placeholder())), UserSchemaUserProfileResponse::Success(p) if p.user_id == 0));
}

#[test]
fn user_placeholders() {
    let p = UserProfile::placeholder();
    assert_eq!(p.user_id, 0);
    assert_eq!(p.display_name, "John Doe");
    assert_eq!(p.avatar_location.as_deref(), Some("/user/profile"));
    assert_eq!(InsertableUserProfile::placeholder().bio, "I wonder how Alice and Bob are doing");
    assert_eq!(UserProfileChangeset::placeholder().display_name, "John Doe");
    assert_eq!(PutAvatarQuery::placeholder().file_extension, "png");
}

#[test]
fn modify_time_split_and_insertable_split() {
    let w = lockinspiel::timekeeper::modify_time_split(4, InsertableTimeSplit::placeholder());
    assert_eq!(w.target, WriteTarget::TimeSplit(4));
    match w.action {
        WriteAction::SetFields(split) => assert_eq!(split.name, "Pomodoro"),
        WriteAction::MarkDeleted => panic!("a modification sets fields"),
    }
    let e = lockinspiel::timekeeper::time_split_updated(Err(failure("x"))).err().unwrap();
    assert_error(&e, UNPROCESSABLE_ENTITY, "Failed to update time split in database");
}

#[test]
fn user_schema_equality_compares_texts() {
    assert!(InsertableUserProfile::placeholder() == InsertableUserProfile::placeholder());
    let other = InsertableUserProfile { display_name: "John Doe".to_string(), bio: String::new() };
    assert!(InsertableUserProfile::placeholder() != other);
    assert!(UserProfileChangeset::placeholder() == UserProfileChangeset::placeholder());
    assert!(lockinspiel::user::UserAvatarPutUrl { url: "a".to_string() } != lockinspiel::user::UserAvatarPutUrl { url: "b".to_string() });
}
