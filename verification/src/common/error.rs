//! The error the services report. Failures of outside libraries that only
//! the services' shells meet are carried as their messages.

use vstd::prelude::*;

verus! {

#[verifier::external_type_specification]
#[verifier::external_body]
pub struct ExUrlParseError(url::ParseError);

/// What went wrong.
#[derive(Debug)]
pub enum ConnectedHomeError {
    Unspecified(String),
    Sqlx(String),
    Prometheus(String),
    Utf8(String),
    ParseUrl(url::ParseError),
    ParseAddr(String),
    Hyper(String),
    TonicTransport(String),
    Migrate(String),
    UserAlreadyExists(String),
    Mqtt,
    ParseEvent(Vec<u8>),
}

impl ConnectedHomeError {
    /// The HTTP status an error is reported with: always `500`.
    pub fn status_code(&self) -> (r: u16)
        ensures
            r == 500,
    {
        500
    }
}

/// The services' result type.
pub type ConnectedHomeResult<T> = Result<T, ConnectedHomeError>;

} // verus!
