//! User profiles: their schema, the documented responses of the profile
//! endpoints, and the routes through which they are read and changed.
use vstd::prelude::*;

use crate::api::{error_body, is_client_error, ApiError, EyreErrorWrapper, UserId};
use crate::uuid_bridge::nil_user_id;

verus! {

/// A profile as submitted for creation.
#[derive(Debug)]
pub struct InsertableUserProfile {
    pub display_name: String,
    pub bio: String,
}

impl InsertableUserProfile {
    /// An example profile.
    pub fn placeholder() -> (profile: Self)
        ensures
            profile.display_name@ == "John Doe"@,
            profile.bio@ == "I wonder how Alice and Bob are doing"@,
    {
        Self {
            display_name: String::from_str("John Doe"),
            bio: String::from_str("I wonder how Alice and Bob are doing"),
        }
    }
}

impl PartialEq for InsertableUserProfile {
    fn eq(&self, other: &Self) -> (equal: bool) {
        self.display_name == other.display_name && self.bio == other.bio
    }
}

impl vstd::std_specs::cmp::PartialEqSpecImpl for InsertableUserProfile {
    open spec fn obeys_eq_spec() -> bool {
        true
    }

    open spec fn eq_spec(&self, other: &Self) -> bool {
        self.display_name@ == other.display_name@ && self.bio@ == other.bio@
    }
}

/// A profile as answered: the account, its texts, and where its avatar can
/// be fetched, if it has one.
#[derive(Debug)]
pub struct UserProfile {
    pub user_id: UserId,
    pub display_name: String,
    pub bio: String,
    pub avatar_location: Option<String>,
}

impl UserProfile {
    /// An example profile, of the nil account.
    pub fn placeholder() -> (profile: Self)
        ensures
            profile.user_id == 0,
            profile.display_name@ == "John Doe"@,
            profile.bio@ == "I wonder how Alice and Bob are doing"@,
            profile.avatar_location matches Some(a) && a@ == "/user/profile"@,
    {
        Self {
            user_id: nil_user_id(),
            display_name: String::from_str("John Doe"),
            bio: String::from_str("I wonder how Alice and Bob are doing"),
            avatar_location: Some(String::from_str("/user/profile")),
        }
    }
}

/// New texts for a profile.
#[derive(Debug)]
pub struct UserProfileChangeset {
    pub display_name: String,
    pub bio: String,
}

impl UserProfileChangeset {
    /// An example change.
    pub fn placeholder() -> (changeset: Self)
        ensures
            changeset.display_name@ == "John Doe"@,
            changeset.bio@ == "I wonder how Alice and Bob are doing"@,
    {
        Self {
            display_name: String::from_str("John Doe"),
            bio: String::from_str("I wonder how Alice and Bob are doing"),
        }
    }
}

impl PartialEq for UserProfileChangeset {
    fn eq(&self, other: &Self) -> (equal: bool) {
        self.display_name == other.display_name && self.bio == other.bio
    }
}

impl vstd::std_specs::cmp::PartialEqSpecImpl for UserProfileChangeset {
    open spec fn obeys_eq_spec() -> bool {
        true
    }

    open spec fn eq_spec(&self, other: &Self) -> bool {
        self.display_name@ == other.display_name@ && self.bio@ == other.bio@
    }
}

/// Where a new avatar is to be uploaded.
#[derive(Debug)]
pub struct UserAvatarPutUrl {
    pub url: String,
}

impl PartialEq for UserAvatarPutUrl {
    fn eq(&self, other: &Self) -> (equal: bool) {
        self.url == other.url
    }
}

impl vstd::std_specs::cmp::PartialEqSpecImpl for UserAvatarPutUrl {
    open spec fn obeys_eq_spec() -> bool {
        true
    }

    open spec fn eq_spec(&self, other: &Self) -> bool {
        self.url@ == other.url@
    }
}

/// The kind of file of a new avatar.
#[derive(Debug)]
pub struct PutAvatarQuery {
    pub file_extension: String,
}

impl PutAvatarQuery {
    /// An example query: a PNG image.
    pub fn placeholder() -> (query: Self)
        ensures
            query.file_extension@ == "png"@,
    {
        Self { file_extension: String::from_str("png") }
    }
}

/// The documented answers of a profile endpoint without a body: success,
/// a 4XX error ("It's your fault") or a 5XX error ("We're having a skill
/// issue").
#[derive(Debug)]
pub enum UserSchemaResponsesVoid {
    Success(()),
    YourFault(EyreErrorWrapper),
    OurFault(EyreErrorWrapper),
}

/// The documented answers of the avatar upload endpoint.
#[derive(Debug)]
pub enum UserSchemaResponsesUrl {
    Success(UserAvatarPutUrl),
    YourFault(EyreErrorWrapper),
    OurFault(EyreErrorWrapper),
}

/// The documented answers of the profile read endpoint.
#[derive(Debug)]
pub enum UserSchemaUserProfileResponse {
    Success(UserProfile),
    YourFault(EyreErrorWrapper),
    OurFault(EyreErrorWrapper),
}

impl UserSchemaResponsesVoid {
    /// The documented answer for a handler's result.
    pub fn from_result(result: Result<(), ApiError>) -> (response: Self)
        ensures
            result is Ok ==> response is Success,
            result matches Err(e) ==> if is_client_error(e.status) {
                response matches Self::YourFault(b) && b.message@ == e.message@
            } else {
                response matches Self::OurFault(b) && b.message@ == e.message@
            },
    {
        match result {
            Ok(()) => Self::Success(()),
            Err(e) => if e.status < 500 {
                Self::YourFault(error_body(e))
            } else {
                Self::OurFault(error_body(e))
            },
        }
    }
}

impl UserSchemaResponsesUrl {
    /// The documented answer for a handler's result.
    pub fn from_result(result: Result<UserAvatarPutUrl, ApiError>) -> (response: Self)
        ensures
            result matches Ok(v) ==> response == Self::Success(v),
            result matches Err(e) ==> if is_client_error(e.status) {
                response matches Self::YourFault(b) && b.message@ == e.message@
            } else {
                response matches Self::OurFault(b) && b.message@ == e.message@
            },
    {
        match result {
            Ok(v) => Self::Success(v),
            Err(e) => if e.status < 500 {
                Self::YourFault(error_body(e))
            } else {
                Self::OurFault(error_body(e))
            },
        }
    }
}

impl UserSchemaUserProfileResponse {
    /// The documented answer for a handler's result.
    pub fn from_result(result: Result<UserProfile, ApiError>) -> (response: Self)
        ensures
            result matches Ok(v) ==> response == Self::Success(v),
            result matches Err(e) ==> if is_client_error(e.status) {
                response matches Self::YourFault(b) && b.message@ == e.message@
            } else {
                response matches Self::OurFault(b) && b.message@ == e.message@
            },
    {
        match result {
            Ok(v) => Self::Success(v),
            Err(e) => if e.status < 500 {
                Self::YourFault(error_body(e))
            } else {
                Self::OurFault(error_body(e))
            },
        }
    }
}

/// `POST /user/profile`: creates a profile for the current session.
#[derive(Debug)]
pub struct CreateProfileRoute {
    pub user_profile: InsertableUserProfile,
}

/// `GET /user/profile`: the profile of the current session.
#[derive(Debug)]
pub struct GetProfileRoute {}

/// `PUT /user/profile`: updates the profile of the current session.
#[derive(Debug)]
pub struct UpdateProfileRoute {
    pub changeset: UserProfileChangeset,
}

/// `PUT /user/profile/avatar`: gives the URL to which the new avatar image
/// is to be uploaded.
#[derive(Debug)]
pub struct PutAvatarRoute {
    pub avatar_query: PutAvatarQuery,
}

/// `DELETE /user/profile/avatar`: deletes the avatar of the profile from
/// wherever it is stored.
#[derive(Debug)]
pub struct DeleteAvatarRoute {}

} // verus!
