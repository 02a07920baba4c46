//! Routing of `/api/<path>` requests and the responses the gateway sends.

use vstd::prelude::*;
use vstd::string::*;

use crate::gateway::countries::{countries, countries_json};
use crate::gateway::users::jwt::Jwt;
use crate::gateway::users::user::UserRequest;
use crate::util::text::same_text;

verus! {

/// HTTP status codes the gateway answers with.
pub const OK: u16 = 200;

pub const CREATED: u16 = 201;

pub const BAD_REQUEST: u16 = 400;

pub const UNAUTHORIZED: u16 = 401;

pub const INTERNAL_SERVER_ERROR: u16 = 500;

pub const NOT_IMPLEMENTED: u16 = 501;

pub const SERVICE_UNAVAILABLE: u16 = 503;

/// A request body that does not hold the expected JSON.
#[derive(Clone, Copy, Debug, PartialEq, Eq, Structural)]
pub enum DeserializationError {
    InvalidRequestBody,
}

/// The request methods the gateway tells apart.
#[derive(Clone, Copy, Debug, PartialEq, Eq, Structural)]
pub enum Method {
    GET,
    POST,
    Other,
}

/// Where a request goes.
#[derive(Clone, Copy, Debug, PartialEq, Eq, Structural)]
pub enum Route {
    Login,
    Register,
    Profile,
    Countries,
    BadRequest,
}

/// The route of a request with `method` on `/api/<path>`.
pub open spec fn route_of(method: Method, path: Seq<char>) -> Route {
    match method {
        Method::POST => if path == "login"@ {
            Route::Login
        } else if path == "register"@ {
            Route::Register
        } else {
            Route::BadRequest
        },
        Method::GET => if path == "profile"@ {
            Route::Profile
        } else if path == "countries"@ {
            Route::Countries
        } else {
            Route::BadRequest
        },
        Method::Other => Route::BadRequest,
    }
}

/// Law: only a `POST` on `login` logs in and only a `POST` on `register`
/// registers; only a `GET` on `profile` or `countries` reaches those; a
/// `GET` on any other path, and any method but `GET` and `POST`, is a bad
/// request.
pub proof fn lemma_route_by_method_and_path(method: Method, path: Seq<char>)
    ensures
        route_of(method, path) == Route::Login ==> method == Method::POST && path == "login"@,
        route_of(method, path) == Route::Register ==> method == Method::POST && path == "register"@,
        route_of(method, path) == Route::Profile ==> method == Method::GET && path == "profile"@,
        route_of(method, path) == Route::Countries ==> method == Method::GET && path == "countries"@,
        method == Method::GET && path != "profile"@ && path != "countries"@ ==> route_of(method, path)
            == Route::BadRequest,
        method == Method::POST && path != "login"@ && path != "register"@ ==> route_of(method, path)
            == Route::BadRequest,
        method == Method::Other ==> route_of(method, path) == Route::BadRequest,
        method == Method::POST && path == "login"@ ==> route_of(method, path) == Route::Login,
        method == Method::POST && path == "register"@ ==> route_of(method, path) == Route::Register,
        method == Method::GET && path == "profile"@ ==> route_of(method, path) == Route::Profile,
        method == Method::GET && path == "countries"@ ==> route_of(method, path) == Route::Countries,
{
    reveal_strlit("login");
    reveal_strlit("register");
    reveal_strlit("profile");
    reveal_strlit("countries");
    assert("register"@.len() != "login"@.len());
    assert("countries"@.len() != "profile"@.len());
}

/// Routes a request with `method` on `/api/<path>`.
pub fn route(method: Method, path: &str) -> (r: Route)
    ensures
        r == route_of(method, path@),
{
    match method {
        Method::POST => {
            if same_text(path, "login") {
                Route::Login
            } else if same_text(path, "register") {
                Route::Register
            } else {
                Route::BadRequest
            }
        },
        Method::GET => {
            if same_text(path, "profile") {
                Route::Profile
            } else if same_text(path, "countries") {
                Route::Countries
            } else {
                Route::BadRequest
            }
        },
        Method::Other => Route::BadRequest,
    }
}

/// A response: status, headers and body.
#[derive(Clone, Debug)]
pub struct Response {
    pub status: u16,
    pub headers: Vec<(String, String)>,
    pub body: String,
}

/// The headers every gateway response carries: it may be read from anywhere.
pub open spec fn cors_headers() -> Seq<(Seq<char>, Seq<char>)> {
    seq![
        ("Access-Control-Allow-Origin"@, "*"@),
        ("Access-Control-Allow-Methods"@, "*"@),
        ("Access-Control-Allow-Headers"@, "*"@),
    ]
}

/// The headers, read as text.
pub open spec fn header_texts(h: Seq<(String, String)>) -> Seq<(Seq<char>, Seq<char>)> {
    h.map_values(|p: (String, String)| (p.0@, p.1@))
}

/// `r` is a gateway response with `status` and `body`.
pub open spec fn response_is(r: Response, status: u16, body: Seq<char>) -> bool {
    r.status == status && r.body@ == body && header_texts(r.headers@) == cors_headers()
}

/// The body text of an optional body: empty when there is none.
pub open spec fn body_text(body: Option<String>) -> Seq<char> {
    match body {
        Some(b) => b@,
        None => Seq::<char>::empty(),
    }
}

/// A gateway response with `status_code` and the body, empty when there is none.
pub fn make_response(status_code: u16, response_body: Option<String>) -> (r: Response)
    ensures
        response_is(r, status_code, body_text(response_body)),
{
    let mut headers: Vec<(String, String)> = Vec::new();
    headers.push((String::from_str("Access-Control-Allow-Origin"), String::from_str("*")));
    headers.push((String::from_str("Access-Control-Allow-Methods"), String::from_str("*")));
    headers.push((String::from_str("Access-Control-Allow-Headers"), String::from_str("*")));
    let body = match response_body {
        Some(b) => b,
        None => String::new(),
    };
    let r = Response { status: status_code, headers, body };
    proof {
        assert(header_texts(r.headers@) =~= cors_headers());
    }
    r
}

/// What the gateway does with a request on `/api/<path>`.
pub enum ApiAction {
    /// Log in with these credentials (which needs the stored users).
    Login(UserRequest),
    /// Register with these credentials (which needs the stored users).
    Register(UserRequest),
    /// Answer a profile request carrying this token.
    Profile(Jwt),
    /// Answer at once with this response.
    Respond(Response),
    /// Turn the request down: its body is not the credentials expected.
    Reject(DeserializationError),
}

/// The token text a request carries: empty when it carries none.
pub open spec fn token_text(jwt: Option<String>) -> Seq<char> {
    match jwt {
        Some(t) => t@,
        None => Seq::<char>::empty(),
    }
}

/// Decides what to do with a request with `method` on `/api/<path>`, whose
/// body reads as `body` and which carries the token `jwt`: a login or a
/// registration takes the credentials from the body, or is turned down when
/// the body does not hold them; a profile request takes the token (empty
/// when there is none); the countries are answered at once; anything else is
/// answered `400 Bad Request`.
pub fn api(method: Method, path: &str, body: Result<UserRequest, DeserializationError>, jwt: Option<String>) -> (r: ApiAction)
    ensures
        route_of(method, path@) == Route::Login ==> (body matches Ok(u) ==> (r matches ApiAction::Login(v) && v == u)),
        route_of(method, path@) == Route::Register ==> (body matches Ok(u) ==> (r matches ApiAction::Register(v) && v == u)),
        route_of(method, path@) == Route::Login || route_of(method, path@) == Route::Register ==> (body matches Err(e) ==> (r matches ApiAction::Reject(f) && f == e)),
        route_of(method, path@) == Route::Profile ==> (r matches ApiAction::Profile(j) && j.token@ == token_text(jwt)),
        route_of(method, path@) == Route::Countries ==> (r matches ApiAction::Respond(resp) && response_is(resp, OK, countries_json())),
        route_of(method, path@) == Route::BadRequest ==> (r matches ApiAction::Respond(resp) && response_is(resp, BAD_REQUEST, Seq::<char>::empty())),
        r is Login ==> method == Method::POST && path@ == "login"@,
        r is Register ==> method == Method::POST && path@ == "register"@,
        method == Method::GET && path@ != "profile"@ && path@ != "countries"@ ==> (r matches ApiAction::Respond(resp) && response_is(resp, BAD_REQUEST, Seq::<char>::empty())),
{
    proof {
        lemma_route_by_method_and_path(method, path@);
    }
    let token = match jwt {
        Some(t) => t,
        None => String::new(),
    };
    match route(method, path) {
        Route::Login => match body {
            Ok(u) => ApiAction::Login(u),
            Err(e) => ApiAction::Reject(e),
        },
        Route::Register => match body {
            Ok(u) => ApiAction::Register(u),
            Err(e) => ApiAction::Reject(e),
        },
        Route::Profile => ApiAction::Profile(Jwt::from(token)),
        Route::Countries => ApiAction::Respond(countries()),
        Route::BadRequest => ApiAction::Respond(make_response(BAD_REQUEST, None)),
    }
}

} // verus!
