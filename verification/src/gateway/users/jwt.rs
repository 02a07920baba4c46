//! The tokens the gateway issues to its own users and checks on requests,
//! signed with the gateway's fixed key.

use vstd::prelude::*;
use vstd::string::*;
use vstd::utf8::encode_utf8;

use crate::gateway::users::user::User;
use crate::token::claims::Claims;
use crate::token::{
    issuable, issue_outcome, stands_until_expiry, compact_token, claims_result, expiry_after, issue_token_at, issued_claims, issued_token, jwt_claims, lemma_verdict_at_some_time, token_readable,
    token_verdict, token_verdict_at_some_time, token_is_readable, verify_token_at,
};
use crate::util::datetime::{chrono_rendered, expiry_format, utc_now, Instant};
use crate::util::json::{token_object, token_object_json};

pub use crate::token::JwtError;

verus! {

/// The key the gateway signs and checks its tokens with.
pub open spec fn gateway_key() -> Seq<u8> {
    encode_utf8("SUPERSECRETKEY"@)
}

/// A token as the gateway issues it.
#[derive(Clone, Debug)]
pub struct Jwt {
    pub token: String,
}

/// The text of the token, if there is one.
pub open spec fn jwt_token_text(r: Option<Jwt>) -> Option<Seq<char>> {
    match r {
        Some(j) => Some(j.token@),
        None => None,
    }
}

impl From<String> for Jwt {
    fn from(token: String) -> (r: Jwt)
        ensures
            r.token == token,
    {
        Jwt { token }
    }
}

impl vstd::std_specs::convert::FromSpecImpl<String> for Jwt {
    open spec fn obeys_from_spec() -> bool {
        true
    }

    open spec fn from_spec(v: String) -> Jwt {
        Jwt { token: v }
    }
}

impl Default for Jwt {
    fn default() -> (r: Jwt)
        ensures
            r.token@ == Seq::<char>::empty(),
    {
        Jwt { token: String::new() }
    }
}

impl Jwt {
    /// The token as it is displayed: its JSON form `{"token":...}`.
    pub fn to_string(&self) -> (r: String)
        ensures
            r@ == token_object_json(self.token@),
    {
        token_object(self.token.as_str())
    }

    /// What the token is worth under the gateway's key at `now`.
    pub fn verify_at(&self, now: Instant) -> (r: Result<Claims, JwtError>)
        requires
            token_readable(self.token@, gateway_key()),
        ensures
            r matches Ok(c) ==> c.wf(),
            claims_result(r) == token_verdict(self.token@, gateway_key(), now),
    {
        verify_token_at(self.token.as_str(), "SUPERSECRETKEY".as_bytes(), now)
    }

    /// What the token is worth under the gateway's key now.
    pub fn verify(&self) -> (r: Result<Claims, JwtError>)
        requires
            token_readable(self.token@, gateway_key()),
        ensures
            r matches Ok(c) ==> c.wf(),
            token_verdict_at_some_time(self.token@, gateway_key(), claims_result(r)),
            exists|now: Instant| claims_result(r) == #[trigger] token_verdict(self.token@, gateway_key(), now),
    {
        let now = utc_now();
        proof {
            lemma_verdict_at_some_time(self.token@, gateway_key(), now);
        }
        self.verify_at(now)
    }

    /// As `verify_at`, answering `None` where the token checks out but its
    /// expiry claim does not read as a timestamp.
    pub fn try_verify_at(&self, now: Instant) -> (r: Option<Result<Claims, JwtError>>)
        ensures
            r matches Some(Ok(c)) ==> c.wf(),
            r is None <==> !token_readable(self.token@, gateway_key()),
            r matches Some(v) ==> claims_result(v) == token_verdict(self.token@, gateway_key(), now),
    {
        if token_is_readable(self.token.as_str(), "SUPERSECRETKEY".as_bytes()) {
            Some(self.verify_at(now))
        } else {
            None
        }
    }

    /// As `verify`, answering `None` where the token checks out but its
    /// expiry claim does not read as a timestamp.
    pub fn try_verify(&self) -> (r: Option<Result<Claims, JwtError>>)
        ensures
            r matches Some(Ok(c)) ==> c.wf(),
            r is None <==> !token_readable(self.token@, gateway_key()),
            r matches Some(v) ==> token_verdict_at_some_time(self.token@, gateway_key(), claims_result(v)),
            r matches Some(v) ==> exists|now: Instant|
                claims_result(v) == #[trigger] token_verdict(self.token@, gateway_key(), now),
    {
        if token_is_readable(self.token.as_str(), "SUPERSECRETKEY".as_bytes()) {
            let v = self.verify();
            proof {
                let now = choose|now: Instant| claims_result(v) == #[trigger] token_verdict(self.token@, gateway_key(), now);
                assert(claims_result(v) == token_verdict(self.token@, gateway_key(), now));
            }
            Some(v)
        } else {
            None
        }
    }

    /// The token issued to `user` at `now`, signed with the gateway's key; `None`
    /// where its expiry cannot be rendered.
    pub fn create_at(user: &User, now: Instant) -> (r: Option<Jwt>)
        ensures
            r is Some <==> issued_token(user.name(), gateway_key(), now) is Some,
            r matches Some(j) ==> Some(j.token@) == issued_token(user.name(), gateway_key(), now),
            r matches Some(j) ==> jwt_claims(j.token@, gateway_key()) == Some(
                issued_claims(
                    user.name(),
                    chrono_rendered(expiry_after(now)->0, expiry_format())->0,
                ),
            ),
            issuable(now) ==> r is Some,
            r matches Some(j) ==> (issuable(now) ==> stands_until_expiry(j.token@, gateway_key(), user.name(), now)),
            r matches Some(j) ==> compact_token(j.token@),
    {
        match issue_token_at(user.username().as_str(), "SUPERSECRETKEY".as_bytes(), now) {
            Some(token) => Some(Jwt { token }),
            None => None,
        }
    }

    /// The token issued to `user` now: what `create_at` gives at the clock
    /// reading, `None` exactly where the expiry cannot be rendered then.
    pub fn create(user: &User) -> (r: Option<Jwt>)
        ensures
            exists|now: Instant| #[trigger] issue_outcome(jwt_token_text(r), user.name(), gateway_key(), now),
            r matches Some(j) ==> exists|now: Instant|
                Some(j.token@) == #[trigger] issued_token(user.name(), gateway_key(), now),
    {
        let now = utc_now();
        let r = Jwt::create_at(user, now);
        assert(issue_outcome(jwt_token_text(r), user.name(), gateway_key(), now));
        r
    }
}

} // verus!
