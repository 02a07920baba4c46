//! The gRPC plumbing between gateway and user service: the token an
//! outgoing call carries, and the trace context an incoming call brings.

use vstd::prelude::*;
use vstd::string::*;
use vstd::utf8::encode_utf8;

use crate::common::auth::ToStrError;
use crate::types::jwt::Jwt;
use crate::util::json::token_object_json;
use crate::util::text::{all_visible_ascii, header_text};

verus! {

/// Sends the caller's trace context, and its token when it has one, with
/// every outgoing call.
pub struct SendTracingContext {
    jwt: Option<Jwt>,
}

impl Default for SendTracingContext {
    /// No token.
    fn default() -> (r: SendTracingContext)
        ensures
            r.token() is None,
    {
        SendTracingContext { jwt: None }
    }
}

impl SendTracingContext {
    /// The token sent along, if any.
    pub closed spec fn token(self) -> Option<Jwt> {
        self.jwt
    }

    /// Sends `jwt` along with every call.
    pub fn with_jwt(jwt: Jwt) -> (r: SendTracingContext)
        ensures
            r.token() == Some(jwt),
    {
        SendTracingContext { jwt: Some(jwt) }
    }

    /// The value of the `authorization` metadata an outgoing call carries:
    /// the token as displayed, `{"token":...}`, when there is one.
    pub fn authorization(&self) -> (r: Option<String>)
        ensures
            self.token() is None ==> r is None,
            self.token() matches Some(j) ==> (r matches Some(v) && v@ == token_object_json(
                j.token@,
            )),
    {
        match &self.jwt {
            Some(jwt) => Some(jwt.to_string()),
            None => None,
        }
    }
}

/// The layer that restores the trace context of incoming calls.
#[derive(Clone)]
pub struct RestoreTracingContextLayer {}

/// A service wrapped so that incoming calls carry their trace context.
#[derive(Clone)]
pub struct Tracing<S> {
    inner: S,
}

impl<S> Tracing<S> {
    /// The wrapped service.
    pub closed spec fn wrapped(self) -> S {
        self.inner
    }

    /// The wrapped service.
    pub fn inner(&self) -> (r: &S)
        ensures
            *r == self.wrapped(),
    {
        &self.inner
    }
}

impl RestoreTracingContextLayer {
    /// Wraps `service`.
    pub fn layer<S>(&self, service: S) -> (r: Tracing<S>)
        ensures
            r.wrapped() == service,
    {
        Tracing { inner: service }
    }
}

/// A user's profile as the user service sends it.
#[derive(Clone, Debug)]
pub struct ProfileData {
    pub first_name: String,
    pub last_name: String,
    pub street_number: i32,
    pub street: String,
    pub city: String,
    pub postal_code: String,
}

/// The user service's answer to a profile request.
#[derive(Clone, Debug)]
pub struct ProfileResponse {
    pub profile: Option<ProfileData>,
}

/// The header that carries the caller's trace.
pub open spec fn trace_parent_key() -> Seq<char> {
    "traceparent"@
}

/// The header that carries vendor trace state.
pub open spec fn trace_state_key() -> Seq<char> {
    "tracestate"@
}

/// A header, when present, has visible-ASCII text.
pub open spec fn readable_header(h: Option<&[u8]>) -> bool {
    match h {
        Some(b) => all_visible_ascii(b@),
        None => true,
    }
}

/// The fields the trace context is read from: `traceparent` and
/// `tracestate`, each when its header is present. Refused where a present
/// header's text is not visible ASCII.
pub fn trace_fields(trace_parent: Option<&[u8]>, trace_state: Option<&[u8]>) -> (r: Result<
    Vec<(String, String)>,
    ToStrError,
>)
    ensures
        r is Ok <==> readable_header(trace_parent) && readable_header(trace_state),
        r matches Ok(v) ==> v@.len() == (if trace_parent is Some { 1int } else { 0int }) + (
        if trace_state is Some {
            1int
        } else {
            0int
        }),
        r matches Ok(v) ==> (trace_parent matches Some(b) ==> v@[0].0@ == trace_parent_key()
            && encode_utf8(v@[0].1@) == b@),
        r matches Ok(v) ==> (trace_state matches Some(b) ==> v@.last().0@ == trace_state_key()
            && encode_utf8(v@.last().1@) == b@),
{
    let mut fields: Vec<(String, String)> = Vec::new();
    match trace_parent {
        Some(b) => match header_text(b) {
            Some(text) => fields.push((String::from_str("traceparent"), text)),
            None => {
                return Err(ToStrError);
            },
        },
        None => {},
    }
    match trace_state {
        Some(b) => match header_text(b) {
            Some(text) => fields.push((String::from_str("tracestate"), text)),
            None => {
                return Err(ToStrError);
            },
        },
        None => {},
    }
    Ok(fields)
}

} // verus!
