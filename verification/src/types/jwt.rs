//! The token as the gRPC layer passes it around: it is displayed as the JSON
//! object `{"token":...}`.

use vstd::prelude::*;
use vstd::string::*;

use crate::common::auth::bearer_prefix;
use crate::token::claims::Claims;
use crate::token::{
    claims_result, lemma_verdict_at_some_time, token_readable, token_verdict,
    token_verdict_at_some_time, token_is_readable, verify_token_at,
};
use crate::util::datetime::{utc_now, Instant};
use crate::util::json::{token_object, token_object_json};
use crate::util::text::{trim_prefix, without_prefix};

pub use crate::token::JwtError;

verus! {

/// A token as presented, possibly with its `Bearer ` prefix.
#[derive(Clone, Debug)]
pub struct Jwt {
    pub token: String,
}

impl Default for Jwt {
    fn default() -> (r: Jwt)
        ensures
            r.token@ == Seq::<char>::empty(),
    {
        Jwt { token: String::new() }
    }
}

impl From<String> for Jwt {
    fn from(token: String) -> (r: Jwt)
        ensures
            r.token == token,
    {
        Jwt { token }
    }
}

impl vstd::std_specs::convert::FromSpecImpl<String> for Jwt {
    open spec fn obeys_from_spec() -> bool {
        true
    }

    open spec fn from_spec(v: String) -> Jwt {
        Jwt { token: v }
    }
}

impl Jwt {
    /// The token proper: the text without its `Bearer ` prefix.
    pub open spec fn bare(self) -> Seq<char> {
        without_prefix(bearer_prefix(), self.token@)
    }

    /// The token as it is displayed: its JSON form `{"token":...}`.
    pub fn to_string(&self) -> (r: String)
        ensures
            r@ == token_object_json(self.token@),
    {
        token_object(self.token.as_str())
    }

    /// What the token is worth under `key` at `now`.
    pub fn verify_at(&self, key: &str, now: Instant) -> (r: Result<Claims, JwtError>)
        requires
            token_readable(self.bare(), key.spec_bytes()),
        ensures
            r matches Ok(c) ==> c.wf(),
            claims_result(r) == token_verdict(self.bare(), key.spec_bytes(), now),
    {
        verify_token_at(trim_prefix(self.token.as_str(), "Bearer "), key.as_bytes(), now)
    }

    /// What the token is worth under `key` now.
    pub fn verify(&self, key: &str) -> (r: Result<Claims, JwtError>)
        requires
            token_readable(self.bare(), key.spec_bytes()),
        ensures
            r matches Ok(c) ==> c.wf(),
            token_verdict_at_some_time(self.bare(), key.spec_bytes(), claims_result(r)),
            exists|now: Instant| claims_result(r) == #[trigger] token_verdict(self.bare(), key.spec_bytes(), now),
    {
        let now = utc_now();
        proof {
            lemma_verdict_at_some_time(self.bare(), key.spec_bytes(), now);
        }
        self.verify_at(key, now)
    }

    /// As `verify_at`, answering `None` where the token checks out but its
    /// expiry claim does not read as a timestamp.
    pub fn try_verify_at(&self, key: &str, now: Instant) -> (r: Option<Result<Claims, JwtError>>)
        ensures
            r matches Some(Ok(c)) ==> c.wf(),
            r is None <==> !token_readable(self.bare(), key.spec_bytes()),
            r matches Some(v) ==> claims_result(v) == token_verdict(self.bare(), key.spec_bytes(), now),
    {
        if token_is_readable(trim_prefix(self.token.as_str(), "Bearer "), key.as_bytes()) {
            Some(self.verify_at(key, now))
        } else {
            None
        }
    }

    /// As `verify`, answering `None` where the token checks out but its
    /// expiry claim does not read as a timestamp.
    pub fn try_verify(&self, key: &str) -> (r: Option<Result<Claims, JwtError>>)
        ensures
            r matches Some(Ok(c)) ==> c.wf(),
            r is None <==> !token_readable(self.bare(), key.spec_bytes()),
            r matches Some(v) ==> token_verdict_at_some_time(self.bare(), key.spec_bytes(), claims_result(v)),
            r matches Some(v) ==> exists|now: Instant|
                claims_result(v) == #[trigger] token_verdict(self.bare(), key.spec_bytes(), now),
    {
        if token_is_readable(trim_prefix(self.token.as_str(), "Bearer "), key.as_bytes()) {
            let v = self.verify(key);
            proof {
                let now = choose|now: Instant| claims_result(v) == #[trigger] token_verdict(self.bare(), key.spec_bytes(), now);
                assert(claims_result(v) == token_verdict(self.bare(), key.spec_bytes(), now));
            }
            Some(v)
        } else {
            None
        }
    }
}

} // verus!
