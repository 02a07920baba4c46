//! The error that REST handlers answer with: a status code and a JSON body
//! holding an optional message.

use vstd::prelude::*;
use vstd::string::*;

use crate::util::json::{json_string, json_string_literal};

verus! {

/// The body of a REST error: `{"error": ...}`, the field left out when empty.
#[derive(Clone, Debug, Hash)]
pub struct ConnectedHomeApiErrorBody {
    error: Option<String>,
}

/// The message an error body displays.
pub open spec fn error_message_text(error: Option<String>) -> Seq<char> {
    match error {
        Some(e) => e@,
        None => "No error message"@,
    }
}

/// The JSON a body is sent as: `{"error":<message>}`, or `{}` when it holds
/// no message.
pub open spec fn error_body_json(error: Option<String>) -> Seq<char> {
    match error {
        Some(e) => "{\"error\":"@ + json_string_literal(e@) + "}"@,
        None => "{}"@,
    }
}

impl ConnectedHomeApiErrorBody {
    /// The message the body holds.
    pub closed spec fn message(self) -> Option<String> {
        self.error
    }

    /// A body holding `error`.
    pub fn new(error: Option<String>) -> (r: ConnectedHomeApiErrorBody)
        ensures
            r.message() == error,
    {
        ConnectedHomeApiErrorBody { error }
    }

    /// The message the body holds.
    pub fn error(&self) -> (r: &Option<String>)
        ensures
            *r == self.message(),
    {
        &self.error
    }

    /// The body as JSON.
    pub fn to_json(&self) -> (r: String)
        ensures
            r@ == error_body_json(self.message()),
    {
        match &self.error {
            Some(e) => {
                let quoted = json_string(e.as_str());
                let mut r = String::from_str("{\"error\":");
                r.append(quoted.as_str());
                r.append("}");
                r
            },
            None => String::from_str("{}"),
        }
    }

    /// The body as it is displayed: its message, or `No error message`.
    pub fn to_string(&self) -> (r: String)
        ensures
            r@ == error_message_text(self.message()),
    {
        match &self.error {
            Some(e) => e.clone(),
            None => String::from_str("No error message"),
        }
    }
}

impl Default for ConnectedHomeApiErrorBody {
    fn default() -> (r: ConnectedHomeApiErrorBody)
        ensures
            r.message() is None,
    {
        ConnectedHomeApiErrorBody { error: None }
    }
}

/// An error answered by a REST handler.
#[derive(Clone, Debug, Hash)]
pub struct ConnectedHomeApiError {
    status_code: u16,
    body: ConnectedHomeApiErrorBody,
}

impl ConnectedHomeApiError {
    /// The status the error is answered with.
    pub closed spec fn status(self) -> u16 {
        self.status_code
    }

    /// The message the error carries.
    pub closed spec fn message(self) -> Option<String> {
        self.body.message()
    }

    /// An error answered with `status_code` and carrying `error`.
    pub fn new(status_code: u16, error: Option<String>) -> (r: ConnectedHomeApiError)
        ensures
            r.status() == status_code,
            r.message() == error,
    {
        ConnectedHomeApiError { status_code, body: ConnectedHomeApiErrorBody::new(error) }
    }

    /// The status the error is answered with.
    pub fn status_code(&self) -> (r: u16)
        ensures
            r == self.status(),
    {
        self.status_code
    }

    /// The body the error is answered with.
    pub fn body(&self) -> (r: &ConnectedHomeApiErrorBody)
        ensures
            r.message() == self.message(),
    {
        &self.body
    }

    /// The response the error is answered with: its status, and its body as
    /// JSON.
    pub fn into_response(self) -> (r: (u16, String))
        ensures
            r.0 == self.status(),
            r.1@ == error_body_json(self.message()),
    {
        let body = self.body.to_json();
        (self.status_code, body)
    }
}

impl Default for ConnectedHomeApiError {
    /// Status 200 (the default status code) and no message.
    fn default() -> (r: ConnectedHomeApiError)
        ensures
            r.status() == 200,
            r.message() is None,
    {
        ConnectedHomeApiError { status_code: 200, body: ConnectedHomeApiErrorBody::default() }
    }
}

} // verus!
