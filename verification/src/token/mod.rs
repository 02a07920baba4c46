//! Signed tokens: the calls into `jwt` that sign and check them, and the
//! verified rules that decide what a checked token is worth.

pub mod claims;

use vstd::prelude::*;
use vstd::string::*;

use crate::token::claims::{keys_distinct, keys_sorted, pair_texts, pairs_map, Claims};
use crate::util::datetime::{
    chrono_parsed, chrono_rendered, expiry_format, instant_before, parse_datetime, plainly_renderable, render_datetime,
    whole_second, Instant,
};

verus! {

#[verifier::external_type_specification]
#[verifier::external_body]
pub struct ExJwtError(jwt::Error);

/// Why a token was turned down.
#[allow(non_camel_case_types)]
#[derive(Clone, Copy, Debug, PartialEq, Eq, Structural)]
pub enum JwtError {
    INVALID,
    EXPIRED,
}

impl From<jwt::Error> for JwtError {
    /// Any failure reported by the `jwt` crate makes the token invalid.
    fn from(_error: jwt::Error) -> (r: JwtError)
        ensures
            r == JwtError::INVALID,
    {
        JwtError::INVALID
    }
}

impl vstd::std_specs::convert::FromSpecImpl<jwt::Error> for JwtError {
    open spec fn obeys_from_spec() -> bool {
        true
    }

    open spec fn from_spec(v: jwt::Error) -> JwtError {
        JwtError::INVALID
    }
}

/// The claims that `jwt` reads from `token` when its HMAC-SHA256 signature
/// checks out under `key`, or `None` where `verify_with_key` reports an error.
pub uninterp spec fn jwt_claims(token: Seq<char>, key: Seq<u8>) -> Option<Map<Seq<char>, Seq<char>>>;

/// The token that `jwt` writes for `claims`, signed with HMAC-SHA256 under `key`.
pub uninterp spec fn jwt_signed(claims: Map<Seq<char>, Seq<char>>, key: Seq<u8>) -> Seq<char>;

/// Builds the key with `Hmac::<Sha256>::new_from_slice` (which takes keys of
/// any length) and calls `jwt::VerifyWithKey::verify_with_key` on `token`,
/// asking for a `BTreeMap<String, String>` of claims, whose pairs it hands
/// back in key order. Claimed: success exactly where the named
/// `jwt_claims(token, key)` is `Some`, with those claims; and the pairs come
/// in increasing order of their keys, as `BTreeMap::into_iter` documents
/// (the order of `String`, which `text_less` states), so no key occurs twice.
#[verifier::external_body]
fn verify_with_key(token: &str, key: &[u8]) -> (r: Result<Vec<(String, String)>, jwt::Error>)
    ensures
        r is Ok <==> jwt_claims(token@, key@) is Some,
        r matches Ok(v) ==> keys_sorted(pair_texts(v@)) && jwt_claims(token@, key@) == Some(
            pairs_map(pair_texts(v@)),
        ),
{
    let key = <hmac::Hmac<sha2::Sha256> as hmac::digest::KeyInit>::new_from_slice(key).unwrap();
    let claims: std::collections::BTreeMap<String, String> = jwt::VerifyWithKey::verify_with_key(
        token,
        &key,
    )?;
    Ok(claims.into_iter().collect())
}

/// A character of a compact token: a base64url digit (`A`-`Z`, `a`-`z`,
/// `0`-`9`, `-`, `_`) or the `.` between the parts.
pub open spec fn compact_char(c: char) -> bool {
    ('A' <= c && c <= 'Z') || ('a' <= c && c <= 'z') || ('0' <= c && c <= '9') || c == '-' || c == '_'
        || c == '.'
}

/// A token in the compact form: base64url parts joined by `.`.
pub open spec fn compact_token(t: Seq<char>) -> bool {
    forall|i: int| 0 <= i < t.len() ==> compact_char(#[trigger] t[i])
}

/// Builds the key as above, gathers the pairs into a `BTreeMap<String,
/// String>` and calls `jwt::SignWithKey::sign_with_key` on it. Claimed: the
/// result is the named `jwt_signed(claims, key)`; signing never fails (the
/// claims serialise to JSON and HMAC signs any input); and, as the crate's
/// documentation and round-trip test show, `verify_with_key` under the same
/// key reads the same claims back; and the token is compact: `sign_with_key`
/// joins the header, the claims and the signature, each encoded with
/// `base64::URL_SAFE_NO_PAD`, with `.`.
#[verifier::external_body]
fn sign_with_key(claims: &Vec<(String, String)>, key: &[u8]) -> (r: Result<String, jwt::Error>)
    requires
        keys_distinct(pair_texts(claims@)),
    ensures
        r is Ok,
        r matches Ok(t) ==> t@ == jwt_signed(pairs_map(pair_texts(claims@)), key@) && jwt_claims(
            t@,
            key@,
        ) == Some(pairs_map(pair_texts(claims@))),
        r matches Ok(t) ==> compact_token(t@),
{
    let key = <hmac::Hmac<sha2::Sha256> as hmac::digest::KeyInit>::new_from_slice(key).unwrap();
    let map: std::collections::BTreeMap<String, String> = claims.iter().cloned().collect();
    jwt::SignWithKey::sign_with_key(map, &key)
}

/// The claim that holds the token's expiry.
pub open spec fn expiry_key() -> Seq<char> {
    "expiry"@
}

/// The claim that holds the user's name.
pub open spec fn username_key() -> Seq<char> {
    "username"@
}

/// The expiry claim, where present, reads as a timestamp.
pub open spec fn expiry_readable(claims: Map<Seq<char>, Seq<char>>) -> bool {
    claims.contains_key(expiry_key()) ==> chrono_parsed(claims[expiry_key()], expiry_format()) is Some
}

/// What checked claims are worth at `now`: without an expiry they are
/// invalid, past their expiry they have expired, otherwise they stand.
pub open spec fn expiry_verdict(claims: Map<Seq<char>, Seq<char>>, now: Instant) -> Result<
    Map<Seq<char>, Seq<char>>,
    JwtError,
> {
    if !claims.contains_key(expiry_key()) {
        Err(JwtError::INVALID)
    } else if instant_before(
        chrono_parsed(claims[expiry_key()], expiry_format()).unwrap(),
        now,
    ) {
        Err(JwtError::EXPIRED)
    } else {
        Ok(claims)
    }
}

/// The token's expiry, where it checks out and carries one, reads as a timestamp.
pub open spec fn token_readable(token: Seq<char>, key: Seq<u8>) -> bool {
    match jwt_claims(token, key) {
        Some(c) => expiry_readable(c),
        None => true,
    }
}

/// What a token is worth under `key` at `now`.
pub open spec fn token_verdict(token: Seq<char>, key: Seq<u8>, now: Instant) -> Result<
    Map<Seq<char>, Seq<char>>,
    JwtError,
> {
    match jwt_claims(token, key) {
        None => Err(JwtError::INVALID),
        Some(c) => expiry_verdict(c, now),
    }
}

/// The results the token can have under `key`, whatever the time.
pub open spec fn token_verdict_at_some_time(
    token: Seq<char>,
    key: Seq<u8>,
    r: Result<Map<Seq<char>, Seq<char>>, JwtError>,
) -> bool {
    match jwt_claims(token, key) {
        None => r == Err::<Map<Seq<char>, Seq<char>>, JwtError>(JwtError::INVALID),
        Some(c) => if c.contains_key(expiry_key()) {
            r == Err::<Map<Seq<char>, Seq<char>>, JwtError>(JwtError::EXPIRED) || r == Ok::<
                Map<Seq<char>, Seq<char>>,
                JwtError,
            >(c)
        } else {
            r == Err::<Map<Seq<char>, Seq<char>>, JwtError>(JwtError::INVALID)
        },
    }
}

/// A result read as text.
pub open spec fn claims_result(r: Result<Claims, JwtError>) -> Result<
    Map<Seq<char>, Seq<char>>,
    JwtError,
> {
    match r {
        Ok(c) => Ok(c@),
        Err(e) => Err(e),
    }
}

/// What a token is worth at any given time is among the results it can
/// have at some time.
pub proof fn lemma_verdict_at_some_time(token: Seq<char>, key: Seq<u8>, now: Instant)
    ensures
        token_verdict_at_some_time(token, key, token_verdict(token, key, now)),
{
}

/// Decides what checked claims are worth at `now`.
pub fn check_expiry(claims: Claims, now: Instant) -> (r: Result<Claims, JwtError>)
    requires
        claims.wf(),
        expiry_readable(claims@),
    ensures
        claims_result(r) == expiry_verdict(claims@, now),
        r matches Ok(c) ==> c.wf(),
{
    let expiry = match claims.get("expiry") {
        Some(text) => parse_datetime(text.as_str(), "%Y-%m-%d %H:%M:%S %z"),
        None => {
            return Err(JwtError::INVALID);
        },
    };
    match expiry {
        Some(t) => {
            if t.is_before(&now) {
                Err(JwtError::EXPIRED)
            } else {
                Ok(claims)
            }
        },
        None => {
            proof {
                assert(false);
            }
            Err(JwtError::INVALID)
        },
    }
}

/// Checks `token` under `key` and decides what it is worth at `now`.
pub fn verify_token_at(token: &str, key: &[u8], now: Instant) -> (r: Result<Claims, JwtError>)
    requires
        token_readable(token@, key@),
    ensures
        claims_result(r) == token_verdict(token@, key@, now),
        r matches Ok(c) ==> c.wf(),
{
    match verify_with_key(token, key) {
        Ok(pairs) => {
            let claims = Claims::from_sorted_pairs(pairs);
            check_expiry(claims, now)
        },
        Err(e) => Err(JwtError::from(e)),
    }
}

/// Whether the token's expiry, where it checks out under `key` and carries
/// one, reads as a timestamp.
pub fn token_is_readable(token: &str, key: &[u8]) -> (r: bool)
    ensures
        r == token_readable(token@, key@),
{
    match verify_with_key(token, key) {
        Ok(pairs) => {
            let claims = Claims::from_sorted_pairs(pairs);
            match claims.get("expiry") {
                Some(text) => parse_datetime(text.as_str(), "%Y-%m-%d %H:%M:%S %z").is_some(),
                None => true,
            }
        },
        Err(_) => true,
    }
}

/// As `verify_token_at`, answering `None` where the token checks out but its
/// expiry claim does not read as a timestamp.
pub fn try_verify_token_at(token: &str, key: &[u8], now: Instant) -> (r: Option<
    Result<Claims, JwtError>,
>)
    ensures
        r is None <==> !token_readable(token@, key@),
        r matches Some(v) ==> claims_result(v) == token_verdict(token@, key@, now),
        r matches Some(Ok(c)) ==> c.wf(),
{
    if token_is_readable(token, key) {
        Some(verify_token_at(token, key, now))
    } else {
        None
    }
}

/// The expiry given to a token issued at `now`: ten minutes later, where the
/// seconds still fit.
pub open spec fn expiry_after(now: Instant) -> Option<Instant> {
    if now.secs + 600 <= i64::MAX {
        Some(Instant { secs: (now.secs + 600) as i64, nanos: now.nanos })
    } else {
        None
    }
}

/// The claims of a token issued to `username` that expires as `expiry` reads.
pub open spec fn issued_claims(username: Seq<char>, expiry: Seq<char>) -> Map<Seq<char>, Seq<char>> {
    Map::<Seq<char>, Seq<char>>::empty().insert(username_key(), username).insert(expiry_key(), expiry)
}

/// The token issued to `username` under `key` at `now`, where its expiry can
/// be rendered.
pub open spec fn issued_token(username: Seq<char>, key: Seq<u8>, now: Instant) -> Option<Seq<char>> {
    match expiry_after(now) {
        None => None,
        Some(e) => match chrono_rendered(e, expiry_format()) {
            None => None,
            Some(text) => Some(jwt_signed(issued_claims(username, text), key)),
        },
    }
}

/// The clock readings at which a token can be issued whose expiry lies in
/// the years 1970 to 9999, outside a leap second.
pub open spec fn issuable(now: Instant) -> bool {
    expiry_after(now) is Some && plainly_renderable(expiry_after(now)->0)
}

/// The expiry text of a token issued at `now`.
pub open spec fn issued_expiry_text(now: Instant) -> Seq<char> {
    chrono_rendered(expiry_after(now)->0, expiry_format())->0
}

/// The last instant a token issued at `now` stands: the start of the second
/// its expiry names, ten minutes after `now`.
pub open spec fn issued_expiry(now: Instant) -> Instant {
    whole_second(expiry_after(now)->0)
}

/// `token` is worth what a token issued to `username` at `now` is worth:
/// its expiry reads, and at any time it stands with the name and expiry
/// claims up to its expiry, and has expired after it.
pub open spec fn stands_until_expiry(token: Seq<char>, key: Seq<u8>, username: Seq<char>, now: Instant) -> bool {
    &&& token_readable(token, key)
    &&& forall|later: Instant|
        #[trigger] token_verdict(token, key, later) == if instant_before(issued_expiry(now), later) {
            Err::<Map<Seq<char>, Seq<char>>, JwtError>(JwtError::EXPIRED)
        } else {
            Ok::<Map<Seq<char>, Seq<char>>, JwtError>(issued_claims(username, issued_expiry_text(now)))
        }
}

/// `r` is what issuing a token to `username` under `key` at `now` gives: the
/// issued token where its expiry can be rendered, nothing otherwise; and
/// where the expiry lies in the years 1970 to 9999, the token stands until
/// it.
pub open spec fn issue_outcome(r: Option<Seq<char>>, username: Seq<char>, key: Seq<u8>, now: Instant) -> bool {
    &&& r == issued_token(username, key, now)
    &&& issuable(now) ==> r is Some
    &&& (r matches Some(t) ==> (issuable(now) ==> stands_until_expiry(t, key, username, now)))
    &&& (r matches Some(t) ==> compact_token(t))
}

/// Issues a token to `username` under `key` at `now`: it claims the name and
/// an expiry ten minutes later. `None` where that expiry cannot be rendered.
pub fn issue_token_at(username: &str, key: &[u8], now: Instant) -> (r: Option<String>)
    ensures
        r is Some <==> issued_token(username@, key@, now) is Some,
        r matches Some(t) ==> Some(t@) == issued_token(username@, key@, now),
        r matches Some(t) ==> jwt_claims(t@, key@) == Some(
            issued_claims(username@, chrono_rendered(expiry_after(now)->0, expiry_format())->0),
        ),
        issuable(now) ==> r is Some,
        r matches Some(t) ==> (issuable(now) ==> stands_until_expiry(t@, key@, username@, now)),
        r matches Some(t) ==> compact_token(t@),
{
    if now.secs > i64::MAX - 600 {
        return None;
    }
    let expiry = Instant { secs: now.secs + 600, nanos: now.nanos };
    let rendered = match render_datetime(expiry, "%Y-%m-%d %H:%M:%S %z") {
        Some(text) => text,
        None => {
            return None;
        },
    };
    let mut claims = Claims::new();
    claims.insert(String::from_str("username"), username.to_owned());
    claims.insert(String::from_str("expiry"), rendered);
    proof {
        assert(claims@ =~= issued_claims(username@, rendered@));
    }
    let pairs = claims.entries();
    match sign_with_key(pairs, key) {
        Ok(token) => {
            proof {
                if issuable(now) {
                    let c = issued_claims(username@, rendered@);
                    assert(expiry_after(now)->0 == expiry);
                    assert(c.contains_key(expiry_key()) && c[expiry_key()] == rendered@);
                    assert(chrono_parsed(rendered@, expiry_format()) == Some(whole_second(expiry)));
                    assert(expiry_readable(c));
                    assert forall|later: Instant|
                        #[trigger] token_verdict(token@, key@, later) == if instant_before(
                            issued_expiry(now),
                            later,
                        ) {
                            Err::<Map<Seq<char>, Seq<char>>, JwtError>(JwtError::EXPIRED)
                        } else {
                            Ok::<Map<Seq<char>, Seq<char>>, JwtError>(
                                issued_claims(username@, issued_expiry_text(now)),
                            )
                        } by {}
                }
            }
            Some(token)
        },
        Err(_) => {
            proof {
                assert(false);
            }
            None
        },
    }
}

/// Law: once a token has expired it stays expired, and a token that stands
/// at some time stood at every earlier time.
pub proof fn lemma_expiry_is_final(token: Seq<char>, key: Seq<u8>, now: Instant, later: Instant)
    requires
        !instant_before(later, now),
    ensures
        token_verdict(token, key, now) == Err::<Map<Seq<char>, Seq<char>>, JwtError>(
            JwtError::EXPIRED,
        ) ==> token_verdict(token, key, later) == Err::<Map<Seq<char>, Seq<char>>, JwtError>(
            JwtError::EXPIRED,
        ),
        token_verdict(token, key, later) is Ok ==> token_verdict(token, key, now) == token_verdict(
            token,
            key,
            later,
        ),
{
}

/// Law: a token that checks out as issued (its claims are a user's name and
/// an expiry) is never judged invalid: it stands, with the user's name,
/// until it expires.
pub proof fn lemma_issued_token_never_invalid(
    token: Seq<char>,
    key: Seq<u8>,
    username: Seq<char>,
    expiry: Seq<char>,
    now: Instant,
)
    requires
        jwt_claims(token, key) == Some(issued_claims(username, expiry)),
    ensures
        token_verdict(token, key, now) != Err::<Map<Seq<char>, Seq<char>>, JwtError>(
            JwtError::INVALID,
        ),
        token_verdict(token, key, now) matches Ok(c) ==> c.contains_key(username_key()) && c[username_key()]
            == username && c[expiry_key()] == expiry,
{
    let c = issued_claims(username, expiry);
    assert(c.contains_key(expiry_key()));
    assert(username_key() != expiry_key()) by {
        reveal_strlit("username");
        reveal_strlit("expiry");
        assert(username_key().len() != expiry_key().len());
    }
}

} // verus!
