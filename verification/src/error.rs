//! The errors the request handlers answer with.

use vstd::prelude::*;

verus! {

/// An error answered to a client.
#[derive(Debug, PartialEq, Eq)]
pub enum AppError {
    /// 401/403-style refusal, with the reason given to the client.
    Unauthorized(String),
    /// The request is malformed, with the reason given to the client.
    BadRequest(String),
    /// The named thing does not exist.
    NotFound(String),
    /// The database refused a statement.
    Database,
    /// An internal invariant did not hold (unreadable stored data).
    Internal,
}

/// The error is `Unauthorized` with exactly the message `msg`.
pub open spec fn is_unauthorized(e: AppError, msg: Seq<char>) -> bool {
    e matches AppError::Unauthorized(m) && m@ == msg
}

/// The error is `BadRequest` with exactly the message `msg`.
pub open spec fn is_bad_request(e: AppError, msg: Seq<char>) -> bool {
    e matches AppError::BadRequest(m) && m@ == msg
}

/// The error is `NotFound` with exactly the message `msg`.
pub open spec fn is_not_found(e: AppError, msg: Seq<char>) -> bool {
    e matches AppError::NotFound(m) && m@ == msg
}

/// `Unauthorized` with the message `msg`.
pub fn unauthorized(msg: &str) -> (e: AppError)
    ensures
        is_unauthorized(e, msg@),
{
    AppError::Unauthorized(msg.to_owned())
}

/// `BadRequest` with the message `msg`.
pub fn bad_request(msg: &str) -> (e: AppError)
    ensures
        is_bad_request(e, msg@),
{
    AppError::BadRequest(msg.to_owned())
}

/// `NotFound` with the message `msg`.
pub fn not_found(msg: &str) -> (e: AppError)
    ensures
        is_not_found(e, msg@),
{
    AppError::NotFound(msg.to_owned())
}

} // verus!
