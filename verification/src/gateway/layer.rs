//! The layer that reads the bearer token from a request's `Authorization`
//! header and hands it on to the handlers.

use vstd::prelude::*;

use crate::common::auth::Jwt;
use crate::util::text::all_visible_ascii;

verus! {

/// A service wrapped so that the token reaches its handlers.
#[derive(Clone)]
pub struct PropagateAuthorization<S> {
    inner: S,
}

impl<S> PropagateAuthorization<S> {
    /// The wrapped service.
    pub closed spec fn wrapped(self) -> S {
        self.inner
    }

    /// The wrapped service.
    pub fn inner(&self) -> (r: &S)
        ensures
            *r == self.wrapped(),
    {
        &self.inner
    }

    /// The wrapped service, by value.
    pub fn into_inner(self) -> (r: S)
        ensures
            r == self.wrapped(),
    {
        self.inner
    }
}

/// The layer that wraps services in `PropagateAuthorization`.
#[derive(Clone)]
pub struct PropagateAuthorizationLayer;

impl PropagateAuthorizationLayer {
    /// The layer.
    pub fn new() -> (r: PropagateAuthorizationLayer) {
        PropagateAuthorizationLayer
    }

    /// Wraps `inner`.
    pub fn layer<S>(&self, inner: S) -> (r: PropagateAuthorization<S>)
        ensures
            r.wrapped() == inner,
    {
        PropagateAuthorization { inner }
    }
}

/// The token a request carries: read from its `Authorization` header when
/// there is one and its text is visible ASCII, `None` otherwise.
pub fn authorization_token(header: Option<&[u8]>) -> (r: Option<Jwt>)
    ensures
        header is None ==> r is None,
        header matches Some(h) ==> (r is Some <==> all_visible_ascii(h@)),
        header matches Some(h) ==> (r matches Some(j) ==> vstd::utf8::encode_utf8(j.token@) == h@),
{
    match header {
        Some(h) => match Jwt::try_from(h) {
            Ok(j) => Some(j),
            Err(_) => None,
        },
        None => None,
    }
}

} // verus!
