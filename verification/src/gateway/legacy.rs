//! The gateway's own handlers behind `/api/<path>`, which keep users in its
//! database: what they answer, given the rows the database returned.

use vstd::prelude::*;
use vstd::string::*;
use vstd::utf8::encode_utf8;

use crate::gateway::api::{make_response, response_is, Method, Response, BAD_REQUEST, CREATED, NOT_IMPLEMENTED, OK, UNAUTHORIZED};
use crate::gateway::users::jwt::{gateway_key, Jwt};
use crate::gateway::users::user::{User, UserRequest};
use crate::password::{is_hash_of, password_matches};
use crate::token::claims::Claims;
use crate::token::{claims_result, issuable, lemma_verdict_at_some_time, token_verdict, issued_token, stands_until_expiry, jwt_claims, token_readable, token_verdict_at_some_time, username_key, JwtError};
use crate::util::datetime::{utc_now, Instant};
use crate::util::json::token_object_json;

verus! {

/// The profile of the user the claims name. Profiles are not kept yet, so
/// there is none.
pub fn get_profile(claims: &Claims) -> (r: Option<String>)
    requires
        claims.wf(),
        claims@.contains_key(username_key()),
    ensures
        r is None,
{
    let _username = claims.get("username");
    None
}

/// The status a profile request is answered with, given what the token was
/// worth; `None` where the token stands but names no user.
pub open spec fn profile_status(
    method: Method,
    verdict: Result<Map<Seq<char>, Seq<char>>, JwtError>,
) -> Option<u16> {
    match verdict {
        Ok(c) => if method == Method::GET && !c.contains_key(username_key()) {
            None
        } else {
            Some(NOT_IMPLEMENTED)
        },
        Err(_) => Some(UNAUTHORIZED),
    }
}

/// Answers a profile request given what its token was worth: profiles are
/// not implemented, and a token that does not stand is unauthorized.
pub fn profile_for(method: Method, verdict: Result<Claims, JwtError>) -> (r: Option<Response>)
    requires
        verdict matches Ok(c) ==> c.wf(),
    ensures
        r is None <==> profile_status(method, claims_result(verdict)) is None,
        r matches Some(resp) ==> Some(resp.status) == profile_status(method, claims_result(verdict))
            && response_is(resp, resp.status, Seq::<char>::empty()),
{
    match verdict {
        Ok(claims) => match method {
            Method::GET => {
                if claims.get("username").is_none() {
                    return None;
                }
                Some(make_response(NOT_IMPLEMENTED, get_profile(&claims)))
            },
            _ => Some(make_response(NOT_IMPLEMENTED, None)),
        },
        Err(_) => Some(make_response(UNAUTHORIZED, None)),
    }
}

/// Answers a profile request with `jwt` at `now`; `None` where the token's
/// expiry does not read as a timestamp, or the token stands but names no
/// user.
pub fn profile_at(method: Method, jwt: Jwt, now: Instant) -> (r: Option<Response>)
    ensures
        r is None <==> !token_readable(jwt.token@, gateway_key()) || profile_status(
            method,
            token_verdict(jwt.token@, gateway_key(), now),
        ) is None,
        r matches Some(resp) ==> Some(resp.status) == profile_status(
            method,
            token_verdict(jwt.token@, gateway_key(), now),
        ) && response_is(resp, resp.status, Seq::<char>::empty()),
{
    match jwt.try_verify_at(now) {
        Some(verdict) => profile_for(method, verdict),
        None => None,
    }
}

/// Answers a profile request with `jwt` now: as `profile_at` at the clock
/// reading.
pub fn profile(method: Method, jwt: Jwt) -> (r: Option<Response>)
    ensures
        r matches Some(resp) ==> exists|v: Result<Map<Seq<char>, Seq<char>>, JwtError>|
            #[trigger] token_verdict_at_some_time(jwt.token@, gateway_key(), v) && profile_status(
                method,
                v,
            ) == Some(resp.status),
        r matches Some(resp) ==> response_is(resp, resp.status, Seq::<char>::empty()),
        !token_readable(jwt.token@, gateway_key()) ==> r is None,
        r is None ==> !token_readable(jwt.token@, gateway_key()) || (method == Method::GET && (
        jwt_claims(jwt.token@, gateway_key()) matches Some(c) && !c.contains_key(username_key()))),
        exists|now: Instant|
            (r is None <==> !token_readable(jwt.token@, gateway_key()) || profile_status(
                method,
                #[trigger] token_verdict(jwt.token@, gateway_key(), now),
            ) is None) && (r matches Some(resp) ==> Some(resp.status) == profile_status(
                method,
                token_verdict(jwt.token@, gateway_key(), now),
            )),
{
    let ghost token = jwt.token@;
    let now = utc_now();
    let r = profile_at(method, jwt, now);
    proof {
        lemma_verdict_at_some_time(token, gateway_key(), now);
    }
    r
}

/// `r` answers, at `now`, a login of the user named `username` whose
/// password matched: `200 OK` with the token issued then, as
/// `{"token":...}`; nothing where it cannot be issued then; and, where its
/// expiry lies in the years 1970 to 9999, the token stands until it.
pub open spec fn login_answer(r: Option<Response>, username: Seq<char>, now: Instant) -> bool {
    &&& (r is Some <==> issued_token(username, gateway_key(), now) is Some)
    &&& issuable(now) ==> r is Some
    &&& (r matches Some(resp) ==> (issued_token(username, gateway_key(), now) matches Some(t)
        && response_is(resp, OK, token_object_json(t)) && (issuable(now) ==> stands_until_expiry(
        t,
        gateway_key(),
        username,
        now,
    ))))
}

/// Answers a login with `credentials` at `now`, given the rows stored under
/// that name: the first row decides; a matching password earns the token
/// issued at `now`.
pub fn login_at(credentials: UserRequest, results: Vec<User>, now: Instant) -> (r: Option<Response>)
    ensures
        results@.len() == 0 ==> r is Some && response_is(r->0, UNAUTHORIZED, Seq::<char>::empty()),
        results@.len() > 0 && !password_matches(
            results@[0].password_hash(),
            encode_utf8(credentials.password@),
        ) ==> r is Some && response_is(r->0, UNAUTHORIZED, Seq::<char>::empty()),
        results@.len() > 0 && password_matches(
            results@[0].password_hash(),
            encode_utf8(credentials.password@),
        ) ==> login_answer(r, results@[0].name(), now),
{
    if results.len() == 0 {
        return Some(make_response(UNAUTHORIZED, None));
    }
    let user = &results[0];
    if user.verify_password(credentials.password) {
        match Jwt::create_at(user, now) {
            Some(jwt) => Some(make_response(OK, Some(jwt.to_string()))),
            None => None,
        }
    } else {
        Some(make_response(UNAUTHORIZED, None))
    }
}

/// Answers a login with `credentials` now: as `login_at` at the clock reading.
pub fn login(credentials: UserRequest, results: Vec<User>) -> (r: Option<Response>)
    ensures
        results@.len() == 0 ==> r is Some && response_is(r->0, UNAUTHORIZED, Seq::<char>::empty()),
        results@.len() > 0 && !password_matches(
            results@[0].password_hash(),
            encode_utf8(credentials.password@),
        ) ==> r is Some && response_is(r->0, UNAUTHORIZED, Seq::<char>::empty()),
        results@.len() > 0 && password_matches(
            results@[0].password_hash(),
            encode_utf8(credentials.password@),
        ) ==> exists|now: Instant| #[trigger] login_answer(r, results@[0].name(), now),
{
    let ghost rows = results@;
    let ghost pwd = credentials.password@;
    let now = utc_now();
    let r = login_at(credentials, results, now);
    proof {
        if rows.len() > 0 && password_matches(rows[0].password_hash(), encode_utf8(pwd)) {
            assert(login_answer(r, rows[0].name(), now));
        }
    }
    r
}

/// What to do with a registration.
pub enum RegisterPlan {
    /// Answer at once; nothing is stored.
    Reject(Response),
    /// Store the user, then answer.
    Insert(User, Response),
}

/// Plans a registration with `new_user`, given the rows already stored under
/// that name: a taken name is refused; otherwise the user is stored with a
/// hash of the password, and the answer is `201 Created`.
pub fn register(new_user: UserRequest, results: Vec<User>) -> (r: RegisterPlan)
    requires
        results@.len() == 0 ==> encode_utf8(new_user.password@).len() <= u32::MAX,
    ensures
        results@.len() > 0 ==> (r matches RegisterPlan::Reject(resp) && response_is(
            resp,
            BAD_REQUEST,
            Seq::<char>::empty(),
        )),
        results@.len() == 0 ==> (r matches RegisterPlan::Insert(u, resp) && response_is(
            resp,
            CREATED,
            Seq::<char>::empty(),
        ) && u.name() == new_user.username@ && is_hash_of(
            u.password_hash(),
            encode_utf8(new_user.password@),
        ) && password_matches(u.password_hash(), encode_utf8(new_user.password@))
            && !u.is_locked() && u.created() == u.updated()),
{
    if results.len() > 0 {
        return RegisterPlan::Reject(make_response(BAD_REQUEST, None));
    }
    let hashed_user = User::new(new_user.username, new_user.password);
    RegisterPlan::Insert(hashed_user, make_response(CREATED, None))
}

} // verus!
