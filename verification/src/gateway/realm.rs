//! The gateway's REST handlers under `/user`: what they answer, given what
//! the user service replied.

use vstd::prelude::*;

use crate::common::auth::Jwt;
use crate::common::rest::ConnectedHomeApiError;
use crate::gateway::api::{INTERNAL_SERVER_ERROR, NOT_IMPLEMENTED, OK, UNAUTHORIZED};

verus! {

/// A login request.
#[derive(Clone, Debug)]
pub struct LoginUserRequest {
    pub username: String,
    pub password: String,
}

/// The answer to a login.
#[derive(Clone, Debug)]
pub struct LoginUserResponse {
    pub username: String,
    pub token: Jwt,
}

/// A registration request.
#[derive(Clone, Debug)]
pub struct RegisterUserRequest {
    pub username: String,
    pub password: String,
}

/// The answer to a registration.
#[derive(Clone, Debug)]
pub struct RegisterUserResponse {
    pub username: String,
    pub token: Jwt,
}

/// A profile request.
#[derive(Clone, Debug)]
pub struct ProfileRequest {}

/// The answer to a profile request.
#[derive(Clone, Debug)]
pub struct ProfileResponse {}

/// Answers a login given the service's reply (the token it issued): `200 OK`
/// with the name and token, or `401 Unauthorized` when the service refused.
pub fn login(req: LoginUserRequest, reply: Result<String, ()>) -> (r: Result<
    (u16, LoginUserResponse),
    ConnectedHomeApiError,
>)
    ensures
        reply matches Ok(jwt) ==> (r matches Ok((status, body)) && status == OK && body.username
            == req.username && body.token.token == jwt),
        reply is Err ==> (r matches Err(e) && e.status() == UNAUTHORIZED && e.message() is None),
{
    match reply {
        Ok(jwt) => Ok((OK, LoginUserResponse { username: req.username, token: Jwt::from(jwt) })),
        Err(_) => Err(ConnectedHomeApiError::new(UNAUTHORIZED, None)),
    }
}

/// Answers a registration given the service's reply (the token it issued):
/// `200 OK` with the name and token, or `500 Internal Server Error`.
pub fn register(req: RegisterUserRequest, reply: Result<String, ()>) -> (r: Result<
    (u16, RegisterUserResponse),
    ConnectedHomeApiError,
>)
    ensures
        reply matches Ok(jwt) ==> (r matches Ok((status, body)) && status == OK && body.username
            == req.username && body.token.token == jwt),
        reply is Err ==> (r matches Err(e) && e.status() == INTERNAL_SERVER_ERROR && e.message() is None),
{
    match reply {
        Ok(jwt) => Ok((OK, RegisterUserResponse { username: req.username, token: Jwt::from(jwt) })),
        Err(_) => Err(ConnectedHomeApiError::new(INTERNAL_SERVER_ERROR, None)),
    }
}

/// Answers a profile request: not implemented yet.
pub fn profile(jwt: Option<Jwt>, req: ProfileRequest) -> (r: Result<
    (u16, ProfileResponse),
    ConnectedHomeApiError,
>)
    ensures
        r matches Err(e) && e.status() == NOT_IMPLEMENTED && e.message() is None,
{
    Err(ConnectedHomeApiError::new(NOT_IMPLEMENTED, None))
}

} // verus!
