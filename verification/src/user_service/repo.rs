//! A user row as the user service stores it, and how storage failures are
//! reported.

use vstd::prelude::*;
use vstd::string::*;
use vstd::utf8::encode_utf8;

use crate::common::error::ConnectedHomeError;
use crate::password::{password_matches, verify_password};
use crate::util::datetime::Instant;

verus! {

/// A stored user.
#[derive(Clone, Debug)]
pub struct UserDto {
    pub id: u128,
    pub username: String,
    pub password: String,
    pub created_at: Instant,
    pub updated_at: Instant,
    pub locked: bool,
}

impl UserDto {
    /// Whether `password` matches the stored hash.
    pub fn verify_password(&self, password: &str) -> (r: bool)
        ensures
            r == password_matches(self.password@, encode_utf8(password@)),
    {
        verify_password(self.password.as_str(), password.as_bytes())
    }
}

/// Why storing a user failed.
#[derive(Clone, Debug)]
pub enum StoreFailure {
    /// The insert returned no row: the name was taken.
    RowNotFound,
    /// Any other database failure, with its message.
    Database(String),
}

/// The error a failed store of `username` is reported as: a taken name, or
/// the database's failure.
pub fn store_error(failure: StoreFailure, username: String) -> (r: ConnectedHomeError)
    ensures
        failure is RowNotFound ==> (r matches ConnectedHomeError::UserAlreadyExists(u) && u
            == username),
        failure matches StoreFailure::Database(m) ==> (r matches ConnectedHomeError::Sqlx(e) && e
            == m),
{
    match failure {
        StoreFailure::RowNotFound => ConnectedHomeError::UserAlreadyExists(username),
        StoreFailure::Database(m) => ConnectedHomeError::Sqlx(m),
    }
}

} // verus!
