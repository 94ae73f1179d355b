//! The request-handling rules of the user service: creating, reading and
//! updating the profile of the current session, and replacing or deleting
//! its avatar.
//!
//! As in `timekeeper`, each decision is a function here and the outside
//! work between decisions (database queries, object-store requests) is done
//! by the caller, guided by typed states.
use vstd::prelude::*;

use crate::api::{
    error_is, error_wraps, or_status, require_found, require_user, ApiError, Failure, UserId,
    NOT_FOUND, UNAUTHORIZED, UNPROCESSABLE_ENTITY,
};
use crate::sql_types::Json;
use crate::user::{InsertableUserProfile, PutAvatarQuery, UserAvatarPutUrl, UserProfile, UserProfileChangeset};
use crate::uuid_bridge::{uuid_hyphenated, uuid_text};

verus! {

/// The store an object lives in.
#[derive(Clone, Copy, Debug, PartialEq, Eq, Structural)]
pub enum UrlOrigin {
    S3,
}

/// Where an object is kept: the store and the object's path in it.
#[derive(Debug)]
pub struct UrlLocation {
    pub location: UrlOrigin,
    pub path: String,
}

/// A profile as stored: the avatar is kept as the location of the image,
/// not as a URL.
#[derive(Debug)]
pub struct DbUserProfile {
    pub user_id: UserId,
    pub display_name: String,
    pub bio: String,
    pub avatar_location: Option<Json<UrlLocation>>,
}

impl DbUserProfile {
    /// The profile as answered. `resolved_avatar` is the URL at which the
    /// stored avatar can be fetched, resolved from its location; a profile
    /// without an avatar is answered without one.
    pub fn into_user_profile(self, resolved_avatar: Option<String>) -> (profile: UserProfile)
        ensures
            profile.user_id == self.user_id,
            profile.display_name == self.display_name,
            profile.bio == self.bio,
            profile.avatar_location == if self.avatar_location is Some {
                resolved_avatar
            } else {
                None
            },
    {
        let mut avatar_location = None;
        if self.avatar_location.is_some() {
            avatar_location = resolved_avatar;
        }
        UserProfile {
            user_id: self.user_id,
            display_name: self.display_name,
            bio: self.bio,
            avatar_location,
        }
    }
}

/// Takes the read of the session's stored profile: a failed read is
/// answered "422", a missing profile "404".
pub fn user_profile_found(found: Result<Option<DbUserProfile>, Failure>) -> (profile: Result<
    DbUserProfile,
    ApiError,
>)
    ensures
        found matches Err(f) ==> (profile matches Err(e) && error_wraps(
            e,
            UNPROCESSABLE_ENTITY,
            "Failed to insert user profile into database"@,
            f,
        )),
        found matches Ok(None) ==> (profile matches Err(e) && error_is(
            e,
            NOT_FOUND,
            "Failed to find user profile in database"@,
        )),
        found matches Ok(Some(p)) ==> profile == Ok::<DbUserProfile, ApiError>(p),
{
    let found = or_status(found, UNPROCESSABLE_ENTITY, "Failed to insert user profile into database")?;
    require_found(found, "Failed to find user profile in database")
}

/// Answers a write of a profile: success, or "422" when the write failed.
pub fn profile_written(written: Result<(), Failure>) -> (reply: Result<(), ApiError>)
    ensures
        written is Ok ==> reply is Ok,
        written matches Err(f) ==> (reply matches Err(e) && error_wraps(
            e,
            UNPROCESSABLE_ENTITY,
            "Failed to insert user profile into database"@,
            f,
        )),
{
    or_status(written, UNPROCESSABLE_ENTITY, "Failed to insert user profile into database")
}

/// Creating a profile: it is to be inserted for the session's account.
/// Without a logged-in account the request is answered "401 Unauthorized".
pub fn create_profile(user: Option<UserId>, new_profile: InsertableUserProfile) -> (next: Result<
    (UserId, InsertableUserProfile),
    ApiError,
>)
    ensures
        user is None ==> (next matches Err(e) && error_is(
            e,
            UNAUTHORIZED,
            "You need to be logged in to create a user profile"@,
        )),
        user matches Some(u) ==> next == Ok::<(UserId, InsertableUserProfile), ApiError>(
            (u, new_profile),
        ),
{
    let user_id = require_user(user, "You need to be logged in to create a user profile")?;
    Ok((user_id, new_profile))
}

/// Reading the profile: the session's stored profile is to be read.
/// Without a logged-in account the request is answered "401 Unauthorized".
pub fn get_profile(user: Option<UserId>) -> (account: Result<UserId, ApiError>)
    ensures
        user is None ==> (account matches Err(e) && error_is(
            e,
            UNAUTHORIZED,
            "You need to be logged in to get your user profile"@,
        )),
        user matches Some(u) ==> account == Ok::<UserId, ApiError>(u),
{
    require_user(user, "You need to be logged in to get your user profile")
}

/// Updating the profile: the session's stored profile is to be set to the
/// new texts. Without a logged-in account the request is answered
/// "401 Unauthorized".
pub fn update_profile(user: Option<UserId>, updated_profile: UserProfileChangeset) -> (next: Result<
    (UserId, UserProfileChangeset),
    ApiError,
>)
    ensures
        user is None ==> (next matches Err(e) && error_is(
            e,
            UNAUTHORIZED,
            "You need to be logged in to update your user profile"@,
        )),
        user matches Some(u) ==> next == Ok::<(UserId, UserProfileChangeset), ApiError>(
            (u, updated_profile),
        ),
{
    let user_id = require_user(user, "You need to be logged in to update your user profile")?;
    Ok((user_id, updated_profile))
}

/// The path of an account's avatar image in the object store:
/// `avatars/<account uuid>.<file extension>`.
pub open spec fn avatar_path(user_id: UserId, file_extension: Seq<char>) -> Seq<char> {
    "avatars/"@ + uuid_text(user_id) + "."@ + file_extension
}

/// An avatar is kept under `avatars/`, then the account's hyphenated UUID,
/// then a dot, then exactly the file extension the request gave: the path
/// ends with a dot and that extension, whatever the extension.
pub proof fn lemma_avatar_path_keeps_extension(user_id: UserId, file_extension: Seq<char>)
    ensures
        avatar_path(user_id, file_extension).len() == 45 + file_extension.len(),
        avatar_path(user_id, file_extension).subrange(0, 8) == "avatars/"@,
        avatar_path(user_id, file_extension).subrange(8, 44) == uuid_text(user_id),
        avatar_path(user_id, file_extension)[44] == '.',
        avatar_path(user_id, file_extension).subrange(44, 45 + file_extension.len() as int) == "."@
            + file_extension,
        avatar_path(user_id, file_extension).subrange(45, 45 + file_extension.len() as int) == file_extension,
{
    reveal_strlit("avatars/");
    reveal_strlit(".");
    let p = avatar_path(user_id, file_extension);
    assert(uuid_text(user_id).len() == 36);
    assert(p.subrange(0, 8) =~= "avatars/"@);
    assert(p.subrange(8, 44) =~= uuid_text(user_id));
    assert(p.subrange(44, 45 + file_extension.len() as int) =~= "."@ + file_extension);
    assert(p.subrange(45, 45 + file_extension.len() as int) =~= file_extension);
}

/// Replacing the avatar, first step: the session's stored profile is to be
/// read.
pub struct PutAvatar {
    pub user_id: UserId,
    pub file_extension: String,
}

/// Replacing the avatar, second step: the old avatar image, if there is
/// one, is to be deleted from where it is stored.
pub struct PutAvatarClear {
    pub user_id: UserId,
    pub file_extension: String,
    pub old_location: Option<UrlLocation>,
}

/// Replacing the avatar, third step: the new location is to be stored in
/// the profile of the account `user_id`.
pub struct PutAvatarStore {
    pub user_id: UserId,
    pub url_location: UrlLocation,
    pub content_type: String,
}

/// Replacing the avatar, last step: an upload URL for the new location and
/// content type is to be signed.
pub struct PutAvatarSign {
    pub url_location: UrlLocation,
    pub content_type: String,
}

/// Starts replacing the avatar. Without a logged-in account the request is
/// answered "401 Unauthorized".
pub fn put_avatar(user: Option<UserId>, put_avatar_query: PutAvatarQuery) -> (next: Result<
    PutAvatar,
    ApiError,
>)
    ensures
        user is None ==> (next matches Err(e) && error_is(
            e,
            UNAUTHORIZED,
            "You need to be logged in to updated your user profile"@,
        )),
        user matches Some(u) ==> next == Ok::<PutAvatar, ApiError>(
            PutAvatar { user_id: u, file_extension: put_avatar_query.file_extension },
        ),
{
    let user_id = require_user(user, "You need to be logged in to updated your user profile")?;
    Ok(PutAvatar { user_id, file_extension: put_avatar_query.file_extension })
}

impl PutAvatar {
    /// Takes the read of the stored profile (answered as
    /// [`user_profile_found`] answers); the old avatar, if any, is to be
    /// deleted next.
    pub fn profile_found(self, found: Result<Option<DbUserProfile>, Failure>) -> (next: Result<
        PutAvatarClear,
        ApiError,
    >)
        ensures
            found matches Err(f) ==> (next matches Err(e) && error_wraps(
                e,
                UNPROCESSABLE_ENTITY,
                "Failed to insert user profile into database"@,
                f,
            )),
            found matches Ok(None) ==> (next matches Err(e) && error_is(
                e,
                NOT_FOUND,
                "Failed to find user profile in database"@,
            )),
            found matches Ok(Some(p)) ==> next == Ok::<PutAvatarClear, ApiError>(
                PutAvatarClear {
                    user_id: self.user_id,
                    file_extension: self.file_extension,
                    old_location: stored_avatar(p),
                },
            ),
    {
        let profile = user_profile_found(found)?;
        let old_location = match profile.avatar_location {
            Some(json) => Some(json.0),
            None => None,
        };
        Ok(PutAvatarClear { user_id: self.user_id, file_extension: self.file_extension, old_location })
    }
}

impl PutAvatarClear {
    /// Takes the outcome of deleting the old image (`Ok` when there was
    /// none): its error is answered as it is. Otherwise the new image is to
    /// be kept in the S3 store under [`avatar_path`], with the content type
    /// `image/<file extension>`.
    pub fn cleared(self, deleted: Result<(), ApiError>) -> (next: Result<PutAvatarStore, ApiError>)
        ensures
            deleted matches Err(e) ==> next == Err::<PutAvatarStore, ApiError>(e),
            deleted is Ok ==> (next matches Ok(n) && {
                &&& n.user_id == self.user_id
                &&& n.url_location.location == UrlOrigin::S3
                &&& n.url_location.path@ == avatar_path(self.user_id, self.file_extension@)
                &&& n.url_location.path@ == "avatars/"@ + uuid_text(self.user_id) + "."@
                    + self.file_extension@
                &&& n.content_type@ == "image/"@ + self.file_extension@
            }),
    {
        deleted?;
        let mut avatar_path = String::from_str("avatars/");
        let id_text = uuid_hyphenated(self.user_id);
        avatar_path.append(id_text.as_str());
        avatar_path.append(".");
        avatar_path.append(self.file_extension.as_str());
        let content_type = String::from_str("image/").concat(self.file_extension.as_str());
        Ok(PutAvatarStore {
            user_id: self.user_id,
            url_location: UrlLocation { location: UrlOrigin::S3, path: avatar_path },
            content_type,
        })
    }
}

impl PutAvatarStore {
    /// Takes the outcome of storing the location: a failure is answered
    /// "422"; otherwise an upload URL is to be signed.
    pub fn stored(self, updated: Result<(), Failure>) -> (next: Result<PutAvatarSign, ApiError>)
        ensures
            updated matches Err(f) ==> (next matches Err(e) && error_wraps(
                e,
                UNPROCESSABLE_ENTITY,
                "Failed to insert user profile into database"@,
                f,
            )),
            updated is Ok ==> next == Ok::<PutAvatarSign, ApiError>(
                PutAvatarSign { url_location: self.url_location, content_type: self.content_type },
            ),
    {
        or_status(updated, UNPROCESSABLE_ENTITY, "Failed to insert user profile into database")?;
        Ok(PutAvatarSign { url_location: self.url_location, content_type: self.content_type })
    }
}

impl PutAvatarSign {
    /// Answers with the signed upload URL.
    pub fn signed(self, url: String) -> (reply: UserAvatarPutUrl)
        ensures
            reply.url == url,
    {
        UserAvatarPutUrl { url }
    }
}

/// Deleting the avatar, first step: the session's stored profile is to be
/// read.
pub struct DeleteAvatar {
    pub user_id: UserId,
}

/// Deleting the avatar, second step: the image, if there is one, is to be
/// deleted from where it is stored.
pub struct DeleteAvatarClear {
    pub user_id: UserId,
    pub old_location: Option<UrlLocation>,
}

/// Deleting the avatar, last step: the profile's avatar location is to be
/// set to `avatar_location`, which is none.
pub struct DeleteAvatarStore {
    pub user_id: UserId,
    pub avatar_location: Option<Json<UrlLocation>>,
}

/// The location of a stored profile's avatar image, which replacing or
/// deleting the avatar asks to delete from its store.
pub open spec fn stored_avatar(profile: DbUserProfile) -> Option<UrlLocation> {
    match profile.avatar_location {
        Some(json) => Some(json.0),
        None => None,
    }
}

/// A stored profile as deleting its avatar leaves it: with no avatar
/// location, and otherwise unchanged.
pub open spec fn without_avatar(profile: DbUserProfile) -> DbUserProfile {
    DbUserProfile { avatar_location: None, ..profile }
}

/// Deleting the avatar twice does what deleting it once does: with the
/// profile as the first deletion left it, a second deletion asks no image to
/// be deleted and leaves the profile as it is.
pub proof fn lemma_delete_avatar_idempotent(profile: DbUserProfile)
    ensures
        stored_avatar(without_avatar(profile)) is None,
        without_avatar(without_avatar(profile)) == without_avatar(profile),
{
}

/// Starts deleting the avatar. Without a logged-in account the request is
/// answered "401 Unauthorized".
pub fn delete_avatar(user: Option<UserId>) -> (next: Result<DeleteAvatar, ApiError>)
    ensures
        user is None ==> (next matches Err(e) && error_is(
            e,
            UNAUTHORIZED,
            "You need to be logged in to update your user profile"@,
        )),
        user matches Some(u) ==> next == Ok::<DeleteAvatar, ApiError>(DeleteAvatar { user_id: u }),
{
    let user_id = require_user(user, "You need to be logged in to update your user profile")?;
    Ok(DeleteAvatar { user_id })
}

impl DeleteAvatar {
    /// Takes the read of the stored profile (answered as
    /// [`user_profile_found`] answers); the image, if any, is to be deleted
    /// next.
    pub fn profile_found(self, found: Result<Option<DbUserProfile>, Failure>) -> (next: Result<
        DeleteAvatarClear,
        ApiError,
    >)
        ensures
            found matches Err(f) ==> (next matches Err(e) && error_wraps(
                e,
                UNPROCESSABLE_ENTITY,
                "Failed to insert user profile into database"@,
                f,
            )),
            found matches Ok(None) ==> (next matches Err(e) && error_is(
                e,
                NOT_FOUND,
                "Failed to find user profile in database"@,
            )),
            found matches Ok(Some(p)) ==> next == Ok::<DeleteAvatarClear, ApiError>(
                DeleteAvatarClear {
                    user_id: self.user_id,
                    old_location: stored_avatar(p),
                },
            ),
    {
        let profile = user_profile_found(found)?;
        let old_location = match profile.avatar_location {
            Some(json) => Some(json.0),
            None => None,
        };
        Ok(DeleteAvatarClear { user_id: self.user_id, old_location })
    }
}

impl DeleteAvatarClear {
    /// Takes the outcome of deleting the image (`Ok` when there was none):
    /// its error is answered as it is; otherwise the location is to be
    /// cleared.
    pub fn cleared(self, deleted: Result<(), ApiError>) -> (next: Result<DeleteAvatarStore, ApiError>)
        ensures
            deleted matches Err(e) ==> next == Err::<DeleteAvatarStore, ApiError>(e),
            deleted is Ok ==> next == Ok::<DeleteAvatarStore, ApiError>(
                DeleteAvatarStore { user_id: self.user_id, avatar_location: None },
            ),
    {
        deleted?;
        Ok(DeleteAvatarStore { user_id: self.user_id, avatar_location: None })
    }
}

impl DeleteAvatarStore {
    /// Answers the deletion: success, or "422" when clearing the location
    /// failed.
    pub fn stored(self, updated: Result<(), Failure>) -> (reply: Result<(), ApiError>)
        ensures
            updated is Ok ==> reply is Ok,
            updated matches Err(f) ==> (reply matches Err(e) && error_wraps(
                e,
                UNPROCESSABLE_ENTITY,
                "Failed to insert user profile into database"@,
                f,
            )),
    {
        profile_written(updated)
    }
}

} // verus!
