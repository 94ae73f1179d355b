//! Errors reported to API clients, the HTTP statuses they carry, and the
//! steps through which a request handler asks for outside work.
use vstd::prelude::*;

verus! {

/// The account a request is made for: the subject of the session token.
pub type UserId = u128;

/// The user id of the defaults that every account can read (the nil UUID).
pub const NIL_USER_ID: UserId = 0;

/// HTTP 200.
pub const OK: u16 = 200;

/// HTTP 401: the request needs a logged-in account.
pub const UNAUTHORIZED: u16 = 401;

/// HTTP 404: what the request names does not exist.
pub const NOT_FOUND: u16 = 404;

/// HTTP 422: the database refused the request's data.
pub const UNPROCESSABLE_ENTITY: u16 = 422;

/// HTTP 500: the service failed.
pub const INTERNAL_SERVER_ERROR: u16 = 500;

/// A failure of outside work (a database query, an object-store request),
/// with the report of the component that failed.
#[derive(Debug)]
pub struct Failure {
    pub report: String,
}

/// An error answered to the client: an HTTP status, what the service was
/// doing when it failed, and the report of the underlying failure, if any.
#[derive(Debug)]
pub struct ApiError {
    pub status: u16,
    pub message: String,
    pub cause: Option<String>,
}

/// Whether an error has the given status and message and no underlying
/// failure.
pub open spec fn error_is(e: ApiError, status: u16, message: Seq<char>) -> bool {
    &&& e.status == status
    &&& e.message@ == message
    &&& e.cause is None
}

/// Whether an error has the given status and message and carries the
/// report of the given failure.
pub open spec fn error_wraps(e: ApiError, status: u16, message: Seq<char>, failure: Failure) -> bool {
    &&& e.status == status
    &&& e.message@ == message
    &&& e.cause matches Some(c) && c@ == failure.report@
}

/// An error with a status and a message, and no underlying failure.
pub fn error(status: u16, message: &str) -> (e: ApiError)
    ensures
        error_is(e, status, message@),
{
    ApiError { status, message: String::from_str(message), cause: None }
}

/// An error with a status and a message that carries a failure's report.
pub fn wrap_failure(failure: Failure, status: u16, message: &str) -> (e: ApiError)
    ensures
        error_wraps(e, status, message@, failure),
{
    ApiError { status, message: String::from_str(message), cause: Some(failure.report) }
}

/// Answers "401 Unauthorized" for a request that needs an account when
/// none is logged in; otherwise gives the account.
pub fn require_user(user: Option<UserId>, message: &str) -> (account: Result<UserId, ApiError>)
    ensures
        user matches Some(u) ==> account == Ok::<UserId, ApiError>(u),
        user is None ==> (account matches Err(e) && error_is(e, UNAUTHORIZED, message@)),
{
    match user {
        Some(u) => Ok(u),
        None => Err(error(UNAUTHORIZED, message)),
    }
}

/// Maps the failure of outside work to an error with the given status,
/// saying what was being done; a success passes through.
pub fn or_status<T>(result: Result<T, Failure>, status: u16, message: &str) -> (mapped: Result<T, ApiError>)
    ensures
        result matches Ok(v) ==> mapped == Ok::<T, ApiError>(v),
        result matches Err(f) ==> mapped matches Err(e) && error_wraps(e, status, message@, f),
{
    match result {
        Ok(v) => Ok(v),
        Err(f) => Err(wrap_failure(f, status, message)),
    }
}

/// Answers "404 Not Found" with the given message when a lookup found
/// nothing; otherwise gives what was found.
pub fn require_found<T>(found: Option<T>, message: &str) -> (value: Result<T, ApiError>)
    ensures
        found matches Some(v) ==> value == Ok::<T, ApiError>(v),
        found is None ==> (value matches Err(e) && error_is(e, NOT_FOUND, message@)),
{
    match found {
        Some(v) => Ok(v),
        None => Err(error(NOT_FOUND, message)),
    }
}

/// What a request handler does next: ask for a piece of outside work, or
/// answer the client.
pub enum Step<Op, T> {
    Run(Op),
    Reply(Result<T, ApiError>),
}

/// The body of an error response.
#[derive(Debug)]
pub struct EyreErrorWrapper {
    pub message: String,
}

/// Whether an error status is the client's fault (a 4XX status) rather
/// than the service's (a 5XX status).
pub open spec fn is_client_error(status: u16) -> bool {
    status < 500
}

/// The body of an error response: its message.
pub fn error_body(e: ApiError) -> (body: EyreErrorWrapper)
    ensures
        body.message@ == e.message@,
{
    EyreErrorWrapper { message: e.message }
}

} // verus!
