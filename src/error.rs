//! Outcomes of the store and of a request that did not succeed.

use vstd::prelude::*;

verus! {

/// Why a store operation produced no row.
#[derive(Debug, PartialEq, Eq)]
pub enum StoreError {
    /// The statement ran and no row matched.
    NotFound,
    /// The pool, the connection or the statement failed; the text describes it.
    Failure(String),
}

/// Why a request was answered with an error, and the message to send.
#[derive(Debug, PartialEq, Eq)]
pub enum ApiError {
    /// The client's payload was rejected.
    BadRequest(String),
    /// No user has the requested id.
    NotFound(String),
    /// The store could not be used.
    Internal(String),
}

pub open spec fn status_of(e: ApiError) -> u16 {
    match e {
        ApiError::BadRequest(_) => 400,
        ApiError::NotFound(_) => 404,
        ApiError::Internal(_) => 500,
    }
}

pub open spec fn message_of(e: ApiError) -> Seq<char> {
    match e {
        ApiError::BadRequest(m) => m@,
        ApiError::NotFound(m) => m@,
        ApiError::Internal(m) => m@,
    }
}

impl ApiError {
    /// The HTTP status code of the reply.
    pub fn status(&self) -> (r: u16)
        ensures
            r == status_of(*self),
    {
        match self {
            ApiError::BadRequest(_) => 400,
            ApiError::NotFound(_) => 404,
            ApiError::Internal(_) => 500,
        }
    }

    /// The message that the reply carries.
    pub fn message(&self) -> (r: String)
        ensures
            r@ == message_of(*self),
    {
        match self {
            ApiError::BadRequest(m) => m.clone(),
            ApiError::NotFound(m) => m.clone(),
            ApiError::Internal(m) => m.clone(),
        }
    }
}

} // verus!
