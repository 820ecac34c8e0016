//! The surface of the service's successor: the shapes of its requests and
//! answers. None of its routes is built yet.

use crate::backend::routes::Status;
use vstd::prelude::*;

verus! {

/// What a client sends to log in.
#[derive(Clone, Debug, PartialEq, Eq)]
pub struct AuthenticateUserParams {
    /// The name by which the user is known to the service.
    pub username: String,
    /// The password that goes with the name.
    pub password: String,
}

/// What a client gets when it has logged in.
#[derive(Clone, Debug, PartialEq, Eq)]
pub struct AuthenticatedTokenResult {
    /// The token with which the client calls the service.
    pub access_token: String,
    /// The token with which the client gets a new pair of tokens before the
    /// access token runs out.
    pub refresh_token: String,
}

/// What a client sends to get a new pair of tokens.
#[derive(Clone, Debug, PartialEq, Eq)]
pub struct RefreshTokenRequest {
    /// The refresh token of the pair that is to be replaced.
    pub refresh_token: String,
}

/// What the service knows of the pilot who is logged in.
#[derive(Clone, Debug, PartialEq, Eq)]
pub struct PilotInformationResult {
    /// The first name of the pilot.
    pub first_name: String,
    /// The last name of the pilot.
    pub last_name: String,
}

/// Answers a login. The route is not built yet.
pub fn authenticate_user(auth_data: &AuthenticateUserParams) -> (answer: Result<
    AuthenticatedTokenResult,
    Status,
>)
    ensures
        answer == Err::<AuthenticatedTokenResult, Status>(Status::NotImplemented),
{
    Err(Status::NotImplemented)
}

/// Answers a request for a new pair of tokens. The route is not built yet.
pub fn refresh_token(refresh_data: &RefreshTokenRequest) -> (answer: Result<
    AuthenticatedTokenResult,
    Status,
>)
    ensures
        answer == Err::<AuthenticatedTokenResult, Status>(Status::NotImplemented),
{
    Err(Status::NotImplemented)
}

/// Answers a request for the pilot who is logged in. The route is not built
/// yet.
pub fn get_pilot_info() -> (answer: Result<PilotInformationResult, Status>)
    ensures
        answer == Err::<PilotInformationResult, Status>(Status::NotImplemented),
{
    Err(Status::NotImplemented)
}

} // verus!
