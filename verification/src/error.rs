//! What a request to the service can fail with.

use vstd::prelude::*;

use crate::db::DbError;

verus! {

/// `std::io::Error`, carried through unread.
#[verifier::external_type_specification]
#[verifier::external_body]
pub struct ExIoError(std::io::Error);

/// `reqwest::Error`: a failed request to another server, carried through
/// unread.
#[verifier::external_type_specification]
#[verifier::external_body]
pub struct ExReqwestError(reqwest::Error);

/// `rss::Error`: why a document is no feed, carried through unread.
#[verifier::external_type_specification]
#[verifier::external_body]
pub struct ExRssError(rss::Error);

/// A failed request.
#[derive(Debug)]
pub enum ApiError {
    Io(std::io::Error),
    Db(DbError),
    Reqwest(reqwest::Error),
    Rss(rss::Error),
    NotFound,
    Unauthorized,
}

/// What a client is told of a request that was not authorized.
pub const UNAUTHORIZED: &'static str = "unauthorized";

/// What a client is told of something that is not there.
pub const NOT_FOUND: &'static str = "not found";

/// What a client is told of any failure inside the service.
pub const INTERNAL_SERVER_ERROR: &'static str = "internal server error";

impl ApiError {
    /// The HTTP status that answers this error.
    pub open spec fn status(self) -> u16 {
        match self {
            ApiError::Unauthorized => 401,
            ApiError::NotFound => 404,
            _ => 500,
        }
    }

    /// The body that answers this error. What went wrong inside the service
    /// is not told to the client.
    pub open spec fn body(self) -> Seq<char> {
        match self {
            ApiError::Unauthorized => UNAUTHORIZED@,
            ApiError::NotFound => NOT_FOUND@,
            _ => INTERNAL_SERVER_ERROR@,
        }
    }

    /// The HTTP status and the body that answer this error.
    pub fn response(&self) -> (r: (u16, &'static str))
        ensures
            r.0 == self.status(),
            r.1@ == self.body(),
    {
        match self {
            ApiError::Unauthorized => (401, UNAUTHORIZED),
            ApiError::NotFound => (404, NOT_FOUND),
            _ => (500, INTERNAL_SERVER_ERROR),
        }
    }
}

} // verus!
