use connected_home::gateway::legacy::login_at;
use connected_home::gateway::rpc::profile_response;
use connected_home::gateway::api::{api, ApiAction, DeserializationError};
use connected_home::util::datetime::Instant;
use connected_home::common::auth::Jwt as BearerJwt;
use connected_home::gateway::api::{make_response, route, Method, Response, Route};
use connected_home::gateway::countries::{countries, countries_body, country_table, Country};
use connected_home::gateway::layer::{authorization_token, PropagateAuthorizationLayer};
use connected_home::gateway::legacy::{get_profile, login, profile, profile_for, register, RegisterPlan};
use connected_home::gateway::realm::{
    login as realm_login, profile as realm_profile, register as realm_register, LoginUserRequest,
    ProfileRequest, RegisterUserRequest,
};
use connected_home::gateway::rpc::{login_reply, register_reply, Profile};
use connected_home::gateway::users::jwt::Jwt as GatewayJwt;
use connected_home::gateway::users::user::{User, UserRequest};
use connected_home::grpc::{ProfileData, ProfileResponse};
use connected_home::token::claims::Claims;
use connected_home::token::JwtError;

fn headers(r: &Response) -> Vec<(&str, &str)> {
    r.headers.iter().map(|(a, b)| (a.as_str(), b.as_str())).collect()
}

const CORS: [(&str, &str); 3] = [
    ("Access-Control-Allow-Origin", "*"),
    ("Access-Control-Allow-Methods", "*"),
    ("Access-Control-Allow-Headers", "*"),
];

#[test]
fn routes() {
    assert_eq!(route(Method::POST, "login"), Route::Login);
    assert_eq!(route(Method::POST, "register"), Route::Register);
    assert_eq!(route(Method::POST, "profile"), Route::BadRequest);
    assert_eq!(route(Method::GET, "profile"), Route::Profile);
    assert_eq!(route(Method::GET, "countries"), Route::Countries);
    assert_eq!(route(Method::GET, "login"), Route::BadRequest);
    assert_eq!(route(Method::Other, "login"), Route::BadRequest);
    assert_eq!(route(Method::GET, ""), Route::BadRequest);
    assert_eq!(route(Method::GET, "countries/"), Route::BadRequest);
}

#[test]
fn responses_carry_cors_headers() {
    let r = make_response(418, Some("teapot".to_string()));
    assert_eq!(r.status, 418);
    assert_eq!(r.body, "teapot");
    assert_eq!(headers(&r), CORS.to_vec());
    let e = make_response(204, None);
    assert_eq!(e.body, "");
}

#[test]
fn country_table_rows() {
    let t = country_table();
    assert_eq!(t.len(), 7);
    let cy = t.iter().find(|(k, _)| k == "Cypress").unwrap();
    assert_eq!(cy.1.name(), "Cyprus");
    assert_eq!(cy.1.capital(), "Nicosia");
    assert_eq!(cy.1.population(), 1207000);
    let uk = t.iter().find(|(k, _)| k == "United Kingdom").unwrap();
    assert_eq!(uk.1.population(), 672200000);
    let c = Country::new("A", "B", 3);
    assert_eq!((c.name().as_str(), c.capital().as_str(), c.population()), ("A", "B", 3));
}

fn stored(name: &str, password: &str) -> User {
    User::new(name.to_string(), password.to_string())
}

#[test]
fn legacy_login() {
    let creds = |p: &str| UserRequest { username: "hank".to_string(), password: p.to_string() };
    let none = login(creds("pw"), vec![]).unwrap();
    assert_eq!((none.status, none.body.as_str()), (401, ""));
    let wrong = login(creds("nope"), vec![stored("hank", "pw")]).unwrap();
    assert_eq!(wrong.status, 401);
    let ok = login(creds("pw"), vec![stored("hank", "pw")]).unwrap();
    assert_eq!(ok.status, 200);
    assert!(ok.body.starts_with("{\"token\":\""));
    let token: String = ok.body["{\"token\":\"".len()..ok.body.len() - 2].to_string();
    let claims = GatewayJwt::from(token).verify().unwrap();
    assert_eq!(claims.get("username").map(|s| s.as_str()), Some("hank"));
}

#[test]
fn legacy_register() {
    let req = || UserRequest { username: "ivy".to_string(), password: "pw".to_string() };
    match register(req(), vec![stored("ivy", "x")]) {
        RegisterPlan::Reject(r) => assert_eq!((r.status, r.body.as_str()), (400, "")),
        RegisterPlan::Insert(..) => panic!("a taken name was accepted"),
    }
    match register(req(), vec![]) {
        RegisterPlan::Insert(u, r) => {
            assert_eq!(r.status, 201);
            assert_eq!(u.username(), "ivy");
            assert!(u.verify_password("pw".to_string()));
        }
        RegisterPlan::Reject(_) => panic!("a free name was refused"),
    }
}

#[test]
fn legacy_profile() {
    let mut claims = Claims::new();
    claims.insert("username".to_string(), "jo".to_string());
    assert_eq!(get_profile(&claims), None);
    let r = profile_for(Method::GET, Ok(claims)).unwrap();
    assert_eq!((r.status, r.body.as_str()), (501, ""));
    assert!(profile_for(Method::GET, Ok(Claims::new())).is_none());
    assert_eq!(profile_for(Method::POST, Ok(Claims::new())).unwrap().status, 501);
    assert_eq!(profile_for(Method::GET, Err(JwtError::EXPIRED)).unwrap().status, 401);
    let user = stored("jo", "pw");
    let jwt = GatewayJwt::create(&user).unwrap();
    assert_eq!(profile(Method::GET, jwt).unwrap().status, 501);
    assert_eq!(profile(Method::GET, GatewayJwt::from("x".to_string())).unwrap().status, 401);
}

#[test]
fn forwarded_replies() {
    let r = login_reply(Ok("tok".to_string()));
    assert_eq!((r.status, r.body.as_str()), (200, "tok"));
    let r = login_reply(Err("bad".to_string()));
    assert_eq!((r.status, r.body.as_str()), (400, "bad"));
    let r = register_reply(Ok("tok".to_string()));
    assert_eq!((r.status, r.body.as_str()), (201, "tok"));
    let r = register_reply(Err("taken".to_string()));
    assert_eq!((r.status, r.body.as_str()), (400, "taken"));
}

#[test]
fn profile_from_service_answer() {
    let data = ProfileData {
        first_name: "A".to_string(),
        last_name: "B".to_string(),
        street_number: 5,
        street: "C".to_string(),
        city: "D".to_string(),
        postal_code: "E".to_string(),
    };
    let p = Profile::try_from(ProfileResponse { profile: Some(data) }).unwrap();
    assert_eq!(
        (p.first_name.as_str(), p.last_name.as_str(), p.street_number, p.street.as_str(), p.city.as_str(), p.postal_code.as_str()),
        ("A", "B", 5, "C", "D", "E")
    );
}

#[test]
fn realm_handlers() {
    let req = LoginUserRequest { username: "kim".to_string(), password: "pw".to_string() };
    let (status, body) = realm_login(req.clone(), Ok("tok".to_string())).unwrap();
    assert_eq!((status, body.username.as_str(), body.token.token.as_str()), (200, "kim", "tok"));
    let e = realm_login(req, Err(())).unwrap_err();
    assert_eq!((e.status_code(), e.body().error().clone()), (401, None));
    let req = RegisterUserRequest { username: "kim".to_string(), password: "pw".to_string() };
    let (status, body) = realm_register(req.clone(), Ok("t2".to_string())).unwrap();
    assert_eq!((status, body.token.token.as_str()), (200, "t2"));
    assert_eq!(realm_register(req, Err(())).unwrap_err().status_code(), 500);
    let e = realm_profile(None, ProfileRequest {}).unwrap_err();
    assert_eq!(e.status_code(), 501);
    assert_eq!(e.body().to_string(), "No error message");
}

#[test]
fn authorization_layer() {
    let layer = PropagateAuthorizationLayer::new();
    let svc = layer.layer(42u32);
    assert_eq!(*svc.inner(), 42);
    assert_eq!(svc.into_inner(), 42);
    assert_eq!(authorization_token(None).map(|j: BearerJwt| j.token), None);
    assert_eq!(authorization_token(Some(b"Bearer x")).map(|j| j.token), Some("Bearer x".to_string()));
    assert!(authorization_token(Some(b"\x01")).is_none());
}

#[test]
fn countries_are_served_as_json() {
    let expected = [
        "{\"Canada\":{\"name\":\"Canada\",\"capital\":\"Ottawa\",\"population\":37000000},",
        "\"Afghanistan\":{\"name\":\"Afghanistan\",\"capital\":\"Kabul\",\"population\":38930000},",
        "\"Jamaica\":{\"name\":\"Jamaica\",\"capital\":\"Kingston\",\"population\":2961000},",
        "\"Cypress\":{\"name\":\"Cyprus\",\"capital\":\"Nicosia\",\"population\":1207000},",
        "\"United States\":{\"name\":\"United States\",\"capital\":\"Washington, D.C\",\"population\":329500000},",
        "\"United Kingdom\":{\"name\":\"United Kingdom\",\"capital\":\"London\",\"population\":672200000},",
        "\"Ukraine\":{\"name\":\"Ukraine\",\"capital\":\"Kiev\",\"population\":44130000}}",
    ]
    .concat();
    assert_eq!(countries_body(), expected);
    let r = countries();
    assert_eq!(r.status, 200);
    assert_eq!(r.body, expected);
    let v: serde_json::Value = serde_json::from_str(&r.body).unwrap();
    assert_eq!(v.as_object().unwrap().len(), 7);
    assert_eq!(v["Cypress"]["name"], "Cyprus");
    assert_eq!(v["United Kingdom"]["population"], 672200000u64);
}

#[test]
fn legacy_login_at_a_given_time() {
    let now = Instant { secs: 1_700_000_000, nanos: 0 };
    let creds = UserRequest { username: "hank".to_string(), password: "pw".to_string() };
    let user = User::new("hank".to_string(), "pw".to_string());
    let expected = GatewayJwt::create_at(&user, now).unwrap();
    let ok = login_at(creds, vec![user], now).unwrap();
    assert_eq!(ok.status, 200);
    assert_eq!(ok.body, expected.to_string());
    let claims = expected.verify_at(Instant { secs: 1_700_000_600, nanos: 0 }).unwrap();
    assert_eq!(claims.get("username").map(|s| s.as_str()), Some("hank"));
}

#[test]
fn gateway_profile_from_service() {
    let data = ProfileData {
        first_name: "Jo \"J\"".to_string(),
        last_name: "Doe".to_string(),
        street_number: -5,
        street: "Tab\tStreet".to_string(),
        city: "Any\u{1}Town".to_string(),
        postal_code: "1".to_string(),
    };
    let r = profile_response(Ok(ProfileResponse { profile: Some(data) })).unwrap();
    assert_eq!(r.status, 200);
    assert_eq!(
        r.body,
        "{\"first_name\":\"Jo \\\"J\\\"\",\"last_name\":\"Doe\",\"street_number\":-5,\"street\":\"Tab\\tStreet\",\"city\":\"Any\\u0001Town\",\"postal_code\":\"1\"}"
    );
    assert!(profile_response(Ok(ProfileResponse { profile: None })).is_none());
    let e = profile_response(Err("down".to_string())).unwrap();
    assert_eq!((e.status, e.body.as_str()), (400, "down"));
}

#[test]
fn api_dispatch() {
    let creds = || UserRequest { username: "u".to_string(), password: "p".to_string() };
    assert!(matches!(api(Method::POST, "login", Ok(creds()), None), ApiAction::Login(u) if u.username == "u"));
    assert!(matches!(api(Method::POST, "register", Ok(creds()), None), ApiAction::Register(u) if u.password == "p"));
    assert!(matches!(
        api(Method::POST, "login", Err(DeserializationError::InvalidRequestBody), None),
        ApiAction::Reject(DeserializationError::InvalidRequestBody)
    ));
    assert!(matches!(api(Method::GET, "profile", Ok(creds()), Some("t".to_string())), ApiAction::Profile(j) if j.token == "t"));
    assert!(matches!(api(Method::GET, "profile", Ok(creds()), None), ApiAction::Profile(j) if j.token.is_empty()));
    assert!(matches!(api(Method::GET, "countries", Ok(creds()), None), ApiAction::Respond(r) if r.status == 200 && r.body == countries_body()));
    assert!(matches!(api(Method::Other, "x", Ok(creds()), None), ApiAction::Respond(r) if r.status == 400 && r.body.is_empty()));
}
