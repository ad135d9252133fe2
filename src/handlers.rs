//! What each endpoint answers, given the outcome of its one store operation.
//!
//! `GET /users`, `GET /users/{id}`, `POST /users`, `PUT /users/{id}` and
//! `DELETE /users/{id}` each run a single statement; the functions here turn
//! that statement's outcome into the reply. A missing row is answered the same
//! way by every endpoint that looks one up: status 404 with an error message.

use vstd::prelude::*;

use crate::error::{ApiError, StoreError};
use crate::model::{payload_is_valid, NewUser, User};

verus! {

/// The body of a successful (status 200) reply.
#[derive(Debug, PartialEq, Eq)]
pub enum Reply {
    /// Every user, in store order.
    Users(Vec<User>),
    /// One user: the one read, created, updated or deleted.
    One(User),
}

/// Message of a rejected payload.
pub open spec fn invalid_payload_message() -> Seq<char> {
    "参数异常"@
}

/// Message of a lookup that matched no row.
pub open spec fn missing_user_message() -> Seq<char> {
    "用户不存在"@
}

/// Text of a store error that is reported as a failure of the server.
pub open spec fn store_error_text(e: StoreError) -> Seq<char> {
    match e {
        StoreError::NotFound => "record not found"@,
        StoreError::Failure(m) => m@,
    }
}

/// The reply to a store failure: status 500 carrying the error's text.
pub open spec fn is_internal_reply(r: Result<Reply, ApiError>, e: StoreError) -> bool {
    r matches Err(ApiError::Internal(m)) && m@ == store_error_text(e)
}

/// The reply owed to a single-row lookup: the row, 404 when it is missing,
/// 500 when the store failed.
pub open spec fn one_row_reply(outcome: Result<User, StoreError>, r: Result<Reply, ApiError>) -> bool {
    match outcome {
        Ok(u) => r == Ok::<Reply, ApiError>(Reply::One(u)),
        Err(StoreError::NotFound) => r matches Err(ApiError::NotFound(m)) && m@
            == missing_user_message(),
        Err(e) => is_internal_reply(r, e),
    }
}

/// The text that reports a store error as a failure of the server.
fn describe(e: StoreError) -> (r: String)
    ensures
        r@ == store_error_text(e),
{
    match e {
        StoreError::NotFound => "record not found".to_owned(),
        StoreError::Failure(m) => m,
    }
}

/// Checks a create payload: both fields must be non-empty, else 400.
pub fn validate_new_user(body: &NewUser) -> (r: Result<(), ApiError>)
    ensures
        r is Ok <==> payload_is_valid(*body),
        r matches Err(e) ==> e matches ApiError::BadRequest(m) && m@ == invalid_payload_message(),
{
    if body.is_valid() {
        Ok(())
    } else {
        Err(ApiError::BadRequest("参数异常".to_owned()))
    }
}

/// `GET /users`: every row, or 500 when the store failed.
pub fn list_users(loaded: Result<Vec<User>, StoreError>) -> (r: Result<Reply, ApiError>)
    ensures
        match loaded {
            Ok(v) => r == Ok::<Reply, ApiError>(Reply::Users(v)),
            Err(e) => is_internal_reply(r, e),
        },
{
    match loaded {
        Ok(v) => Ok(Reply::Users(v)),
        Err(e) => Err(ApiError::Internal(describe(e))),
    }
}

/// Shared by the endpoints that address one row by id.
fn reply_one(outcome: Result<User, StoreError>) -> (r: Result<Reply, ApiError>)
    ensures
        one_row_reply(outcome, r),
{
    match outcome {
        Ok(u) => Ok(Reply::One(u)),
        Err(StoreError::NotFound) => Err(ApiError::NotFound("用户不存在".to_owned())),
        Err(e) => Err(ApiError::Internal(describe(e))),
    }
}

/// `GET /users/{id}`: the row, 404 when no row has the id, 500 when the store
/// failed.
pub fn get_user(found: Result<User, StoreError>) -> (r: Result<Reply, ApiError>)
    ensures
        one_row_reply(found, r),
{
    reply_one(found)
}

/// `POST /users`, once the payload passed `validate_new_user`: the created
/// row, or 500 when the store refused the write (a missing row included).
pub fn create_user(inserted: Result<User, StoreError>) -> (r: Result<Reply, ApiError>)
    ensures
        match inserted {
            Ok(u) => r == Ok::<Reply, ApiError>(Reply::One(u)),
            Err(e) => is_internal_reply(r, e),
        },
{
    match inserted {
        Ok(u) => Ok(Reply::One(u)),
        Err(e) => Err(ApiError::Internal(describe(e))),
    }
}

/// `PUT /users/{id}`: the updated row, 404 when no row has the id, 500 when
/// the store failed.
pub fn update_user(updated: Result<User, StoreError>) -> (r: Result<Reply, ApiError>)
    ensures
        one_row_reply(updated, r),
{
    reply_one(updated)
}

/// `DELETE /users/{id}`: the row as it was before removal, 404 when no row has
/// the id, 500 when the store failed.
pub fn delete_user(deleted: Result<User, StoreError>) -> (r: Result<Reply, ApiError>)
    ensures
        one_row_reply(deleted, r),
{
    reply_one(deleted)
}

} // verus!
