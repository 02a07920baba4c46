//! What the user service answers to registration, login and profile calls,
//! given what the database returned.

use vstd::prelude::*;
use vstd::string::*;
use vstd::utf8::encode_utf8;

use crate::common::auth::{bearer_prefix, lemma_compact_token_is_bare, Jwt};
use crate::util::text::without_prefix;
use crate::common::error::ConnectedHomeError;
use crate::grpc::ProfileData;
use crate::password::{hash, is_hash_of, password_matches};
use crate::token::claims::Claims;
use crate::token::{
    claims_result, expiry_after, issuable, issue_outcome, issue_token_at, issued_claims, issued_token, jwt_claims,
    stands_until_expiry, compact_token, issued_expiry, issued_expiry_text, JwtError, token_readable, token_verdict,
};
use crate::user_service::repo::UserDto;
use crate::util::datetime::{chrono_rendered, expiry_format, instant_before, utc_now, Instant};

verus! {

/// The key the user service signs and checks tokens with.
pub open spec fn service_key() -> Seq<u8> {
    encode_utf8("SUPERSECRETKEY"@)
}

/// gRPC status codes the service answers with.
#[derive(Clone, Copy, Debug, PartialEq, Eq, Structural)]
pub enum Code {
    InvalidArgument,
    AlreadyExists,
    Internal,
    Unauthenticated,
}

/// A gRPC error: a code and a message.
#[derive(Clone, Debug)]
pub struct Status {
    pub code: Code,
    pub message: String,
}

/// `s` has this code and message.
pub open spec fn status_is(s: Status, code: Code, message: Seq<char>) -> bool {
    s.code == code && s.message@ == message
}

/// A user's name and password, as sent in a call.
#[derive(Clone, Debug)]
pub struct UserCredentials {
    pub username: String,
    pub password: String,
}

/// The text of the token, if there is one.
pub open spec fn jwt_token_text(r: Option<Jwt>) -> Option<Seq<char>> {
    match r {
        Some(j) => Some(j.token@),
        None => None,
    }
}

/// The token issued to `user` at `now`; `None` where its expiry cannot be rendered.
pub fn create_jwt_at(user: &str, now: Instant) -> (r: Option<Jwt>)
    ensures
        r is Some <==> issued_token(user@, service_key(), now) is Some,
        r matches Some(j) ==> Some(j.token@) == issued_token(user@, service_key(), now),
        r matches Some(j) ==> jwt_claims(j.token@, service_key()) == Some(
            issued_claims(user@, chrono_rendered(expiry_after(now)->0, expiry_format())->0),
        ),
        issuable(now) ==> r is Some,
        r matches Some(j) ==> (issuable(now) ==> stands_until_expiry(j.token@, service_key(), user@, now)),
        r matches Some(j) ==> compact_token(j.token@),
{
    match issue_token_at(user, "SUPERSECRETKEY".as_bytes(), now) {
        Some(token) => Some(Jwt { token }),
        None => None,
    }
}

/// The token issued to `user` now: what `create_jwt_at` gives at the clock
/// reading, `None` exactly where the expiry cannot be rendered then.
pub fn create_jwt(user: &str) -> (r: Option<Jwt>)
    ensures
        exists|now: Instant| #[trigger] issue_outcome(jwt_token_text(r), user@, service_key(), now),
        r matches Some(j) ==> exists|now: Instant|
            Some(j.token@) == #[trigger] issued_token(user@, service_key(), now),
{
    let now = utc_now();
    let r = create_jwt_at(user, now);
    assert(issue_outcome(jwt_token_text(r), user@, service_key(), now));
    r
}

/// What a registration stores: the name, and a hash of the password under a
/// fresh salt. A call without credentials is refused as an invalid argument.
pub fn register_request(credentials: Option<UserCredentials>) -> (r: Result<(String, String), Status>)
    requires
        credentials matches Some(c) ==> encode_utf8(c.password@).len() <= u32::MAX,
    ensures
        credentials is None ==> (r matches Err(s) && status_is(s, Code::InvalidArgument, Seq::<char>::empty())),
        credentials matches Some(c) ==> (r matches Ok((name, hashed)) && name == c.username
            && is_hash_of(hashed@, encode_utf8(c.password@)) && password_matches(
            hashed@,
            encode_utf8(c.password@),
        )),
{
    match credentials {
        Some(c) => {
            let hashed = hash(c.password.as_str().as_bytes());
            Ok((c.username, hashed))
        },
        None => Err(Status { code: Code::InvalidArgument, message: String::new() }),
    }
}

/// The name and password a login looks up. A call without credentials is
/// refused as an invalid argument.
pub fn login_request(credentials: Option<UserCredentials>) -> (r: Result<(String, String), Status>)
    ensures
        credentials is None ==> (r matches Err(s) && status_is(s, Code::InvalidArgument, Seq::<char>::empty())),
        credentials matches Some(c) ==> (r matches Ok((name, password)) && name == c.username && password
            == c.password),
{
    match credentials {
        Some(c) => Ok((c.username, c.password)),
        None => Err(Status { code: Code::InvalidArgument, message: String::new() }),
    }
}

/// The token text of an answer, where it is one.
pub open spec fn reply_token_text(r: Option<Result<String, Status>>) -> Option<Seq<char>> {
    match r {
        Some(Ok(t)) => Some(t@),
        _ => None,
    }
}

/// Answers a registration at `now`, given how storing the user went: the
/// token issued to the stored user, or why storing failed. `None` where the
/// token cannot be issued at `now`.
pub fn register_reply_at(stored: Result<UserDto, ConnectedHomeError>, now: Instant) -> (r: Option<
    Result<String, Status>,
>)
    ensures
        stored matches Ok(u) ==> ((r matches Some(reply) ==> reply is Ok) && issue_outcome(
            reply_token_text(r),
            u.username@,
            service_key(),
            now,
        )),
        stored matches Err(ConnectedHomeError::UserAlreadyExists(_)) ==> (r matches Some(Err(s))
            && status_is(s, Code::AlreadyExists, "A user with that name already exists."@)),
        stored matches Err(e) && !(e is UserAlreadyExists) ==> (r matches Some(Err(s)) && status_is(
            s,
            Code::Internal,
            "Failed to register user. Please try again later."@,
        )),
        r matches Some(Ok(t)) ==> without_prefix(bearer_prefix(), t@) == t@,
{
    match stored {
        Ok(user) => match create_jwt_at(user.username.as_str(), now) {
            Some(jwt) => {
                proof {
                    lemma_compact_token_is_bare(jwt.token@);
                }
                Some(Ok(jwt.to_string()))
            },
            None => None,
        },
        Err(ConnectedHomeError::UserAlreadyExists(_)) => Some(
            Err(
                Status {
                    code: Code::AlreadyExists,
                    message: String::from_str("A user with that name already exists."),
                },
            ),
        ),
        Err(_) => Some(
            Err(
                Status {
                    code: Code::Internal,
                    message: String::from_str("Failed to register user. Please try again later."),
                },
            ),
        ),
    }
}

/// Law: the token a registration or a login answers with, read back as a
/// bearer token under the service's key, carries the user's name and its
/// expiry up to that expiry, and has expired after it (for a token issued
/// with its expiry in the years 1970 to 9999).
pub proof fn lemma_reply_token_verifies(t: Seq<char>, username: Seq<char>, now: Instant, later: Instant)
    requires
        issue_outcome(Some(t), username, service_key(), now),
        issuable(now),
    ensures
        token_verdict(without_prefix(bearer_prefix(), t), service_key(), later) == if instant_before(
            issued_expiry(now),
            later,
        ) {
            Err::<Map<Seq<char>, Seq<char>>, JwtError>(JwtError::EXPIRED)
        } else {
            Ok::<Map<Seq<char>, Seq<char>>, JwtError>(issued_claims(username, issued_expiry_text(now)))
        },
{
    lemma_compact_token_is_bare(t);
    assert(stands_until_expiry(t, service_key(), username, now));
    assert(token_verdict(t, service_key(), later) == token_verdict(t, service_key(), later));
}

/// Answers a registration now: as `register_reply_at` at the clock reading.
pub fn register_reply(stored: Result<UserDto, ConnectedHomeError>) -> (r: Option<Result<String, Status>>)
    ensures
        stored matches Ok(u) ==> ((r matches Some(reply) ==> reply is Ok) && exists|now: Instant|
            #[trigger] issue_outcome(reply_token_text(r), u.username@, service_key(), now)),
        stored matches Err(ConnectedHomeError::UserAlreadyExists(_)) ==> (r matches Some(Err(s))
            && status_is(s, Code::AlreadyExists, "A user with that name already exists."@)),
        stored matches Err(e) && !(e is UserAlreadyExists) ==> (r matches Some(Err(s)) && status_is(
            s,
            Code::Internal,
            "Failed to register user. Please try again later."@,
        )),
        r matches Some(Ok(t)) ==> without_prefix(bearer_prefix(), t@) == t@,
{
    let ghost st = stored;
    let now = utc_now();
    let r = register_reply_at(stored, now);
    proof {
        match st {
            Ok(u) => {
                assert(issue_outcome(reply_token_text(r), u.username@, service_key(), now));
            },
            Err(_) => {},
        }
    }
    r
}

/// Answers a login of `password` against the stored `user` at `now`: the
/// token issued to the user when the password matches, `Unauthenticated`
/// otherwise. `None` where the token cannot be issued at `now`.
pub fn login_reply_at(user: &UserDto, password: &str, now: Instant) -> (r: Option<Result<String, Status>>)
    ensures
        !password_matches(user.password@, encode_utf8(password@)) ==> (r matches Some(Err(s))
            && status_is(s, Code::Unauthenticated, "Failed to authenticate with provided credentials"@)),
        password_matches(user.password@, encode_utf8(password@)) ==> ((r matches Some(reply)
            ==> reply is Ok) && issue_outcome(reply_token_text(r), user.username@, service_key(), now)),
        r matches Some(Ok(t)) ==> without_prefix(bearer_prefix(), t@) == t@,
{
    if user.verify_password(password) {
        match create_jwt_at(user.username.as_str(), now) {
            Some(jwt) => {
                proof {
                    lemma_compact_token_is_bare(jwt.token@);
                }
                Some(Ok(jwt.to_string()))
            },
            None => None,
        }
    } else {
        Some(
            Err(
                Status {
                    code: Code::Unauthenticated,
                    message: String::from_str("Failed to authenticate with provided credentials"),
                },
            ),
        )
    }
}

/// Answers a login now: as `login_reply_at` at the clock reading.
pub fn login_reply(user: &UserDto, password: &str) -> (r: Option<Result<String, Status>>)
    ensures
        !password_matches(user.password@, encode_utf8(password@)) ==> (r matches Some(Err(s))
            && status_is(s, Code::Unauthenticated, "Failed to authenticate with provided credentials"@)),
        password_matches(user.password@, encode_utf8(password@)) ==> ((r matches Some(reply)
            ==> reply is Ok) && exists|now: Instant|
            #[trigger] issue_outcome(reply_token_text(r), user.username@, service_key(), now)),
        r matches Some(Ok(t)) ==> without_prefix(bearer_prefix(), t@) == t@,
{
    let now = utc_now();
    let r = login_reply_at(user, password, now);
    proof {
        if password_matches(user.password@, encode_utf8(password@)) {
            assert(issue_outcome(reply_token_text(r), user.username@, service_key(), now));
        }
    }
    r
}

/// The profile every authenticated user gets for now: John Doe, 123 My
/// Street, Any Town, 90210.
pub open spec fn is_sample_profile(p: ProfileData) -> bool {
    &&& p.first_name@ == "John"@
    &&& p.last_name@ == "Doe"@
    &&& p.street_number == 123
    &&& p.street@ == "My Street"@
    &&& p.city@ == "Any Town"@
    &&& p.postal_code@ == "90210"@
}

/// The profile every authenticated user gets for now.
pub fn sample_profile() -> (r: ProfileData)
    ensures
        is_sample_profile(r),
{
    ProfileData {
        first_name: String::from_str("John"),
        last_name: String::from_str("Doe"),
        street_number: 123,
        street: String::from_str("My Street"),
        city: String::from_str("Any Town"),
        postal_code: String::from_str("90210"),
    }
}

/// `reply` answers a profile call whose token is worth `verdict`: the
/// profile when the token stands, `Unauthenticated` otherwise.
pub open spec fn profile_answer(
    reply: Result<ProfileData, Status>,
    verdict: Result<Map<Seq<char>, Seq<char>>, crate::token::JwtError>,
) -> bool {
    &&& verdict is Ok ==> (reply matches Ok(p) && is_sample_profile(p))
    &&& verdict is Err ==> (reply matches Err(s) && status_is(s, Code::Unauthenticated, "No valid auth token"@))
}

/// Answers a profile call given what its token was worth.
pub fn profile_for_verdict(verdict: Result<Claims, crate::token::JwtError>) -> (r: Result<ProfileData, Status>)
    ensures
        profile_answer(r, claims_result(verdict)),
{
    match verdict {
        Ok(_claims) => Ok(sample_profile()),
        Err(_) => Err(Status { code: Code::Unauthenticated, message: String::from_str("No valid auth token") }),
    }
}

/// Answers, at `now`, a profile call that carried `jwt` (read from its
/// `authorization` metadata), or none: the profile when the token stands
/// under the service's key at `now`, `Unauthenticated` otherwise. `None`
/// where the token checks out but its expiry does not read as a timestamp.
pub fn profile_reply_at(jwt: Option<Jwt>, now: Instant) -> (r: Option<Result<ProfileData, Status>>)
    ensures
        jwt is None ==> (r matches Some(Err(s)) && status_is(s, Code::Unauthenticated, "No valid auth token"@)),
        jwt matches Some(j) ==> (r is None <==> !token_readable(j.bare(), service_key())),
        jwt matches Some(j) ==> (r matches Some(reply) ==> profile_answer(
            reply,
            token_verdict(j.bare(), service_key(), now),
        )),
{
    match jwt {
        Some(j) => match j.try_verify_at("SUPERSECRETKEY", now) {
            Some(v) => Some(profile_for_verdict(v)),
            None => None,
        },
        None => Some(
            Err(Status { code: Code::Unauthenticated, message: String::from_str("No valid auth token") }),
        ),
    }
}

/// Answers a profile call that carried `jwt` now: as `profile_reply_at` at
/// the clock reading.
pub fn profile_reply(jwt: Option<Jwt>) -> (r: Option<Result<ProfileData, Status>>)
    ensures
        jwt is None ==> (r matches Some(Err(s)) && status_is(s, Code::Unauthenticated, "No valid auth token"@)),
        jwt matches Some(j) ==> (r is None <==> !token_readable(j.bare(), service_key())),
        jwt matches Some(j) ==> exists|now: Instant|
            (r matches Some(reply) ==> profile_answer(reply, #[trigger] token_verdict(j.bare(), service_key(), now))),
        r matches Some(Ok(p)) ==> is_sample_profile(p),
        r matches Some(Err(s)) ==> status_is(s, Code::Unauthenticated, "No valid auth token"@),
{
    let ghost token = jwt;
    let now = utc_now();
    let r = profile_reply_at(jwt, now);
    proof {
        match token {
            Some(j) => {
                assert(r matches Some(reply) ==> profile_answer(reply, token_verdict(j.bare(), service_key(), now)));
            },
            None => {},
        }
    }
    r
}

} // verus!
