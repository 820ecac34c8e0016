//! What the service answers: status codes and the bodies of its errors.

use vstd::prelude::*;

pub mod airports;
pub mod auth;
pub mod health;

verus! {

/// The HTTP status of an answer.
#[derive(Clone, Copy, Debug, PartialEq, Eq, Structural)]
pub enum Status {
    /// 204: done, and nothing to say.
    NoContent,
    /// 400: the request cannot be understood.
    BadRequest,
    /// 401: the credentials are wrong or missing.
    Unauthorized,
    /// 403: the request is not allowed.
    Forbidden,
    /// 404: there is no such thing.
    NotFound,
    /// 405: the method is not allowed on this route.
    MethodNotAllowed,
    /// 500: the service failed.
    InternalServerError,
    /// 501: the route is not built yet.
    NotImplemented,
}

impl Status {
    /// The number of the status.
    pub open spec fn number(self) -> u16 {
        match self {
            Status::NoContent => 204,
            Status::BadRequest => 400,
            Status::Unauthorized => 401,
            Status::Forbidden => 403,
            Status::NotFound => 404,
            Status::MethodNotAllowed => 405,
            Status::InternalServerError => 500,
            Status::NotImplemented => 501,
        }
    }

    /// The number of the status.
    pub fn code(&self) -> (code: u16)
        ensures
            code == self.number(),
    {
        match self {
            Status::NoContent => 204,
            Status::BadRequest => 400,
            Status::Unauthorized => 401,
            Status::Forbidden => 403,
            Status::NotFound => 404,
            Status::MethodNotAllowed => 405,
            Status::InternalServerError => 500,
            Status::NotImplemented => 501,
        }
    }
}

/// The body of an answer that reports an error.
#[derive(Clone, Debug, PartialEq, Eq)]
pub struct ErrorResponse {
    /// The number of the HTTP status.
    pub code: u16,
    /// What went wrong, in a few words.
    pub message: String,
}

/// The body for the status `status`, saying `message`.
fn error_response(status: Status, message: &str) -> (response: ErrorResponse)
    ensures
        response.code == status.number(),
        response.message@ == message@,
{
    ErrorResponse { code: status.code(), message: message.to_owned() }
}

/// The body of the answer to a request that cannot be understood.
pub fn catcher_bad_request() -> (response: ErrorResponse)
    ensures
        response.code == 400,
        response.message@ == "Bad request"@,
{
    error_response(Status::BadRequest, "Bad request")
}

/// The body of the answer to a request without valid credentials.
pub fn catcher_unauthorized() -> (response: ErrorResponse)
    ensures
        response.code == 401,
        response.message@ == "Unauthorized"@,
{
    error_response(Status::Unauthorized, "Unauthorized")
}

/// The body of the answer to a request that is not allowed.
pub fn catcher_forbidden() -> (response: ErrorResponse)
    ensures
        response.code == 403,
        response.message@ == "Forbidden"@,
{
    error_response(Status::Forbidden, "Forbidden")
}

/// The body of the answer to a request for what does not exist.
pub fn catcher_not_found() -> (response: ErrorResponse)
    ensures
        response.code == 404,
        response.message@ == "Not found"@,
{
    error_response(Status::NotFound, "Not found")
}

/// The body of the answer to a request with a method the route does not
/// take.
pub fn catcher_method_not_allowed() -> (response: ErrorResponse)
    ensures
        response.code == 405,
        response.message@ == "Method not allowed"@,
{
    error_response(Status::MethodNotAllowed, "Method not allowed")
}

/// The body of the answer to a request on which the service failed.
pub fn catcher_internal_server_error() -> (response: ErrorResponse)
    ensures
        response.code == 500,
        response.message@ == "Internal server error"@,
{
    error_response(Status::InternalServerError, "Internal server error")
}

} // verus!
