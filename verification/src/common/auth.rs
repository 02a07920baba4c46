//! The bearer token that callers present in the `Authorization` header.

use vstd::prelude::*;
use vstd::string::*;

use crate::token::claims::Claims;
use crate::token::{
    compact_char, compact_token,
    claims_result, lemma_verdict_at_some_time, token_readable, token_verdict,
    token_verdict_at_some_time, token_is_readable, verify_token_at,
};
use crate::util::datetime::{utc_now, Instant};
use crate::util::text::{all_visible_ascii, header_text, is_prefix, trim_prefix, without_prefix};

pub use crate::token::JwtError;

verus! {

/// The header value's text is not visible ASCII.
#[derive(Clone, Copy, Debug, PartialEq, Eq, Structural)]
pub struct ToStrError;

/// The prefix that marks a bearer token.
pub open spec fn bearer_prefix() -> Seq<char> {
    "Bearer "@
}

/// A token as presented, possibly with its `Bearer ` prefix.
#[derive(Clone, Debug)]
pub struct Jwt {
    pub token: String,
}

impl Default for Jwt {
    fn default() -> (r: Jwt)
        ensures
            r.token@ == Seq::<char>::empty(),
    {
        Jwt { token: String::new() }
    }
}

impl From<String> for Jwt {
    fn from(token: String) -> (r: Jwt)
        ensures
            r.token == token,
    {
        Jwt { token }
    }
}

impl vstd::std_specs::convert::FromSpecImpl<String> for Jwt {
    open spec fn obeys_from_spec() -> bool {
        true
    }

    open spec fn from_spec(v: String) -> Jwt {
        Jwt { token: v }
    }
}

impl Jwt {
    /// The token proper: the text without its `Bearer ` prefix.
    pub open spec fn bare(self) -> Seq<char> {
        without_prefix(bearer_prefix(), self.token@)
    }

    /// The token in an `Authorization` header value, read as text.
    pub fn try_from(header_value: &[u8]) -> (r: Result<Jwt, ToStrError>)
        ensures
            r is Ok <==> all_visible_ascii(header_value@),
            r matches Ok(j) ==> vstd::utf8::encode_utf8(j.token@) == header_value@,
    {
        match header_text(header_value) {
            Some(text) => Ok(Jwt::from(text)),
            None => Err(ToStrError),
        }
    }

    /// The token as it is displayed: its text unchanged.
    pub fn to_string(&self) -> (r: String)
        ensures
            r@ == self.token@,
    {
        self.token.clone()
    }

    /// What the token is worth under `key` at `now`.
    pub fn verify_at(&self, key: &str, now: Instant) -> (r: Result<Claims, JwtError>)
        requires
            token_readable(self.bare(), key.spec_bytes()),
        ensures
            r matches Ok(c) ==> c.wf(),
            claims_result(r) == token_verdict(self.bare(), key.spec_bytes(), now),
    {
        verify_token_at(trim_prefix(self.token.as_str(), "Bearer "), key.as_bytes(), now)
    }

    /// What the token is worth under `key` now.
    pub fn verify(&self, key: &str) -> (r: Result<Claims, JwtError>)
        requires
            token_readable(self.bare(), key.spec_bytes()),
        ensures
            r matches Ok(c) ==> c.wf(),
            token_verdict_at_some_time(self.bare(), key.spec_bytes(), claims_result(r)),
            exists|now: Instant| claims_result(r) == #[trigger] token_verdict(self.bare(), key.spec_bytes(), now),
    {
        let now = utc_now();
        proof {
            lemma_verdict_at_some_time(self.bare(), key.spec_bytes(), now);
        }
        self.verify_at(key, now)
    }

    /// As `verify_at`, answering `None` where the token checks out but its
    /// expiry claim does not read as a timestamp.
    pub fn try_verify_at(&self, key: &str, now: Instant) -> (r: Option<Result<Claims, JwtError>>)
        ensures
            r matches Some(Ok(c)) ==> c.wf(),
            r is None <==> !token_readable(self.bare(), key.spec_bytes()),
            r matches Some(v) ==> claims_result(v) == token_verdict(self.bare(), key.spec_bytes(), now),
    {
        if token_is_readable(trim_prefix(self.token.as_str(), "Bearer "), key.as_bytes()) {
            Some(self.verify_at(key, now))
        } else {
            None
        }
    }

    /// As `verify`, answering `None` where the token checks out but its
    /// expiry claim does not read as a timestamp.
    pub fn try_verify(&self, key: &str) -> (r: Option<Result<Claims, JwtError>>)
        ensures
            r matches Some(Ok(c)) ==> c.wf(),
            r is None <==> !token_readable(self.bare(), key.spec_bytes()),
            r matches Some(v) ==> token_verdict_at_some_time(self.bare(), key.spec_bytes(), claims_result(v)),
            r matches Some(v) ==> exists|now: Instant|
                claims_result(v) == #[trigger] token_verdict(self.bare(), key.spec_bytes(), now),
    {
        if token_is_readable(trim_prefix(self.token.as_str(), "Bearer "), key.as_bytes()) {
            let v = self.verify(key);
            proof {
                let now = choose|now: Instant| claims_result(v) == #[trigger] token_verdict(self.bare(), key.spec_bytes(), now);
                assert(claims_result(v) == token_verdict(self.bare(), key.spec_bytes(), now));
            }
            Some(v)
        } else {
            None
        }
    }
}

/// Law: a compact token never starts with `Bearer ` (it holds no space), so
/// reading it as a bearer token leaves it as it is.
pub proof fn lemma_compact_token_is_bare(token: Seq<char>)
    requires
        compact_token(token),
    ensures
        !is_prefix(bearer_prefix(), token),
        without_prefix(bearer_prefix(), token) == token,
{
    reveal_strlit("Bearer ");
    if is_prefix(bearer_prefix(), token) {
        assert(token.take(7)[6] == ' ');
        assert(token[6] == ' ');
        assert(compact_char(token[6]));
    }
}

/// Law: a token is worth the same with or without the `Bearer ` prefix in
/// front of it (unless the token proper itself starts with `Bearer `).
pub proof fn lemma_bearer_prefix_ignored(token: Seq<char>, key: Seq<u8>, now: Instant)
    requires
        !is_prefix(bearer_prefix(), token),
    ensures
        without_prefix(bearer_prefix(), bearer_prefix() + token) == without_prefix(
            bearer_prefix(),
            token,
        ),
        token_verdict(without_prefix(bearer_prefix(), bearer_prefix() + token), key, now)
            == token_verdict(without_prefix(bearer_prefix(), token), key, now),
{
    let p = bearer_prefix();
    assert((p + token).take(p.len() as int) =~= p);
    assert((p + token).skip(p.len() as int) =~= token);
}

} // verus!
