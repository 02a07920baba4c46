//! The gateway handlers behind `/api/<path>` that forward to the user service
//! over gRPC: what they answer, given what the service replied.

use vstd::prelude::*;
use vstd::string::*;

use crate::grpc::ProfileResponse;
use crate::gateway::api::{make_response, response_is, Response, BAD_REQUEST, CREATED, OK};
use crate::util::json::{json_string, json_string_literal};
use crate::util::text::{all_digits, decimal_string, decimal_text, digits_value, is_digit, lemma_decimal_text};

verus! {

/// Answers a login given the service's reply: the token, or the service's
/// message with `400 Bad Request`.
pub fn login_reply(reply: Result<String, String>) -> (r: Response)
    ensures
        reply matches Ok(jwt) ==> response_is(r, OK, jwt@),
        reply matches Err(message) ==> response_is(r, BAD_REQUEST, message@),
{
    match reply {
        Ok(jwt) => make_response(OK, Some(jwt)),
        Err(message) => make_response(BAD_REQUEST, Some(message)),
    }
}

/// Answers a registration given the service's reply: the token with `201
/// Created`, or the service's message with `400 Bad Request`.
pub fn register_reply(reply: Result<String, String>) -> (r: Response)
    ensures
        reply matches Ok(jwt) ==> response_is(r, CREATED, jwt@),
        reply matches Err(message) ==> response_is(r, BAD_REQUEST, message@),
{
    match reply {
        Ok(jwt) => make_response(CREATED, Some(jwt)),
        Err(message) => make_response(BAD_REQUEST, Some(message)),
    }
}

/// A user's profile as the gateway returns it.
#[derive(Clone, Debug)]
pub struct Profile {
    pub first_name: String,
    pub last_name: String,
    pub street_number: i32,
    pub street: String,
    pub city: String,
    pub postal_code: String,
}

impl Profile {
    /// The profile the service's answer holds.
    pub fn try_from(value: ProfileResponse) -> (r: Result<Profile, ()>)
        requires
            value.profile is Some,
        ensures
            r matches Ok(p) && ({
                let d = value.profile->0;
                &&& p.first_name == d.first_name
                &&& p.last_name == d.last_name
                &&& p.street_number == d.street_number
                &&& p.street == d.street
                &&& p.city == d.city
                &&& p.postal_code == d.postal_code
            }),
    {
        let profile = value.profile.unwrap();
        Ok(
            Profile {
                first_name: profile.first_name,
                last_name: profile.last_name,
                street_number: profile.street_number,
                street: profile.street,
                city: profile.city,
                postal_code: profile.postal_code,
            },
        )
    }
}

/// The decimal rendering of a signed number, with a minus sign when it is
/// negative.
pub open spec fn signed_decimal_text(n: int) -> Seq<char> {
    if n < 0 {
        "-"@ + decimal_text((-n) as nat)
    } else {
        decimal_text(n as nat)
    }
}

/// The number a JSON integer spells: digits, or a `-` then digits; `None`
/// for any other text (a `+` sign, an empty text, other characters).
pub open spec fn json_integer_value(s: Seq<char>) -> Option<int> {
    if s.len() > 1 && s[0] == '-' && all_digits(s.skip(1)) {
        Some(-digits_value(s.skip(1)))
    } else if s.len() > 0 && all_digits(s) {
        Some(digits_value(s))
    } else {
        None
    }
}

/// Law: the signed rendering of `n` is a JSON integer that spells `n`: a
/// minus sign exactly when `n` is negative, then the digits of its
/// magnitude with no leading zero (no `+`, no other character).
pub proof fn lemma_signed_decimal_text(n: int)
    ensures
        json_integer_value(signed_decimal_text(n)) == Some(n),
        signed_decimal_text(n)[0] == '-' <==> n < 0,
        n >= 0 ==> all_digits(signed_decimal_text(n)),
        n < 0 ==> all_digits(signed_decimal_text(n).skip(1)),
        n < 0 ==> signed_decimal_text(n)[1] != '0',
        n > 0 ==> signed_decimal_text(n)[0] != '0',
{
    reveal_strlit("-");
    if n < 0 {
        let m = (-n) as nat;
        lemma_decimal_text(m);
        let t = signed_decimal_text(n);
        assert(t.skip(1) =~= decimal_text(m));
        assert(t[1] == decimal_text(m)[0]);
    } else {
        lemma_decimal_text(n as nat);
        let t = signed_decimal_text(n);
        assert(is_digit(t[0]));
    }
}

fn signed_decimal_string(n: i32) -> (r: String)
    ensures
        r@ == signed_decimal_text(n as int),
{
    if n < 0 {
        let magnitude = decimal_string((-(n as i128)) as u128);
        let mut r = String::from_str("-");
        r.append(magnitude.as_str());
        r
    } else {
        decimal_string(n as u128)
    }
}

/// The JSON a profile is sent as: its six fields in order.
pub open spec fn profile_json(p: Profile) -> Seq<char> {
    "{\"first_name\":"@ + json_string_literal(p.first_name@) + ",\"last_name\":"@
        + json_string_literal(p.last_name@) + ",\"street_number\":"@ + signed_decimal_text(
        p.street_number as int,
    ) + ",\"street\":"@ + json_string_literal(p.street@) + ",\"city\":"@ + json_string_literal(
        p.city@,
    ) + ",\"postal_code\":"@ + json_string_literal(p.postal_code@) + "}"@
}

impl Profile {
    /// The profile as JSON.
    pub fn to_json(&self) -> (r: String)
        ensures
            r@ == profile_json(*self),
    {
        let mut r = String::from_str("{\"first_name\":");
        let part = json_string(self.first_name.as_str());
        r.append(part.as_str());
        r.append(",\"last_name\":");
        let part = json_string(self.last_name.as_str());
        r.append(part.as_str());
        r.append(",\"street_number\":");
        let part = signed_decimal_string(self.street_number);
        r.append(part.as_str());
        r.append(",\"street\":");
        let part = json_string(self.street.as_str());
        r.append(part.as_str());
        r.append(",\"city\":");
        let part = json_string(self.city.as_str());
        r.append(part.as_str());
        r.append(",\"postal_code\":");
        let part = json_string(self.postal_code.as_str());
        r.append(part.as_str());
        r.append("}");
        r
    }
}

/// The profile a user-service answer holds.
pub open spec fn profile_of(d: crate::grpc::ProfileData) -> Profile {
    Profile {
        first_name: d.first_name,
        last_name: d.last_name,
        street_number: d.street_number,
        street: d.street,
        city: d.city,
        postal_code: d.postal_code,
    }
}

/// Answers a profile request given the service's reply: `200 OK` with the
/// profile as JSON, or the service's message with `400 Bad Request`. `None`
/// where the service answered without a profile.
pub fn profile_response(reply: Result<ProfileResponse, String>) -> (r: Option<Response>)
    ensures
        reply matches Ok(p) ==> (p.profile is None <==> r is None),
        reply matches Ok(p) ==> (p.profile matches Some(d) ==> (r matches Some(resp) && response_is(
            resp,
            OK,
            profile_json(profile_of(d)),
        ))),
        reply matches Err(m) ==> (r matches Some(resp) && response_is(resp, BAD_REQUEST, m@)),
{
    match reply {
        Ok(response) => {
            if response.profile.is_none() {
                return None;
            }
            match Profile::try_from(response) {
                Ok(profile) => Some(make_response(OK, Some(profile.to_json()))),
                Err(_) => None,
            }
        },
        Err(message) => Some(make_response(BAD_REQUEST, Some(message))),
    }
}

} // verus!
