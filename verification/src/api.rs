//! Common types used by the whole API.
//!
//! Every operation outcome is presented to the transport layer through
//! `ApiResult`: an HTTP status code beside either a success body or an
//! `ApiError`. The transport serializes whichever side is present, appends a
//! single trailing newline (see `append_newline`) and sets the status code.

use vstd::prelude::*;

verus! {

pub const STATUS_OK: u16 = 200;

pub const STATUS_CREATED: u16 = 201;

pub const STATUS_BAD_REQUEST: u16 = 400;

pub const STATUS_FORBIDDEN: u16 = 403;

pub const STATUS_NOT_FOUND: u16 = 404;

pub const STATUS_INTERNAL_SERVER_ERROR: u16 = 500;

/// A string representing admin token to access admin only endpoints.
#[derive(Debug)]
pub struct AdminToken(pub String);

impl Clone for AdminToken {
    fn clone(&self) -> (r: Self)
        ensures
            r == *self,
    {
        AdminToken(self.0.clone())
    }
}

/// A unified error structure to return for API endpoints that failed.
/// This makes our requests predictable because they all fail the same way:
/// a short machine-readable code beside a human-readable description.
#[derive(Debug)]
pub struct ApiError {
    pub error: String,
    pub error_description: String,
}

impl Clone for ApiError {
    fn clone(&self) -> (r: Self)
        ensures
            r == *self,
    {
        ApiError {
            error: self.error.clone(),
            error_description: self.error_description.clone(),
        }
    }
}

impl PartialEq for ApiError {
    fn eq(&self, other: &ApiError) -> (r: bool) {
        self.error == other.error && self.error_description == other.error_description
    }
}

impl vstd::std_specs::cmp::PartialEqSpecImpl for ApiError {
    open spec fn obeys_eq_spec() -> bool {
        true
    }

    open spec fn eq_spec(&self, other: &ApiError) -> bool {
        self.error@ == other.error@ && self.error_description@ == other.error_description@
    }
}

impl ApiError {
    pub fn from(error: &str, error_description: &str) -> (r: ApiError)
        ensures
            r.error@ == error@,
            r.error_description@ == error_description@,
    {
        ApiError { error: error.to_owned(), error_description: error_description.to_owned() }
    }

    pub fn internal_error() -> (r: ApiError)
        ensures
            r.error@ == "internal_error"@,
            r.error_description@ == "the operation failed"@,
    {
        ApiError::from("internal_error", "the operation failed")
    }
}

/// An operation outcome as the transport layer renders it: a status code
/// beside either the success body or the error body.
#[derive(Debug)]
pub struct ApiResult<T, E> {
    pub code: u16,
    pub content: Result<T, E>,
}

impl<T, E> ApiResult<T, E> {
    pub fn success(code: u16, content: T) -> (r: ApiResult<T, E>)
        ensures
            r.code == code,
            r.content == Ok::<T, E>(content),
    {
        ApiResult { code, content: Ok(content) }
    }

    pub fn error(code: u16, content: E) -> (r: ApiResult<T, E>)
        ensures
            r.code == code,
            r.content == Err::<T, E>(content),
    {
        ApiResult { code, content: Err(content) }
    }
}

/// Appends the single trailing newline that ends every rendered response
/// body.
pub fn append_newline(body: String) -> (r: String)
    ensures
        r@ == body@.push('\n'),
{
    let ghost before = body@;
    let mut s = body;
    s.append("\n");
    proof {
        reveal_strlit("\n");
        assert(s@ =~= before.push('\n'));
    }
    s
}

} // verus!
