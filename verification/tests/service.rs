use connected_home::user_service::handlers::{login_reply_at, login_request, profile_for_verdict, profile_reply_at, register_reply_at};
use connected_home::common::auth::Jwt as BearerJwt;
use connected_home::common::error::ConnectedHomeError;
use connected_home::grpc::{trace_fields, RestoreTracingContextLayer, SendTracingContext};
use connected_home::password::hash;
use connected_home::types::jwt::Jwt as TypedJwt;
use connected_home::user_service::handlers::{
    create_jwt, create_jwt_at, login_reply, profile_reply, register_reply, register_request, Code,
    UserCredentials,
};
use connected_home::user_service::repo::{store_error, StoreFailure, UserDto};
use connected_home::util::datetime::Instant;

fn dto(name: &str, password: &str) -> UserDto {
    UserDto {
        id: 1,
        username: name.to_string(),
        password: hash(password.as_bytes()),
        created_at: Instant { secs: 0, nanos: 0 },
        updated_at: Instant { secs: 0, nanos: 0 },
        locked: false,
    }
}

#[test]
fn registration() {
    let e = register_request(None).unwrap_err();
    assert_eq!((e.code, e.message.as_str()), (Code::InvalidArgument, ""));
    let (name, hashed) = register_request(Some(UserCredentials {
        username: "lee".to_string(),
        password: "pw".to_string(),
    }))
    .unwrap();
    assert_eq!(name, "lee");
    assert!(connected_home::password::verify_password(&hashed, b"pw"));
    let jwt = register_reply(Ok(dto("lee", "pw"))).unwrap().unwrap();
    let claims = BearerJwt::from(jwt).verify("SUPERSECRETKEY").unwrap();
    assert_eq!(claims.get("username").map(|s| s.as_str()), Some("lee"));
    let s = register_reply(Err(ConnectedHomeError::UserAlreadyExists("lee".to_string()))).unwrap().unwrap_err();
    assert_eq!((s.code, s.message.as_str()), (Code::AlreadyExists, "A user with that name already exists."));
    let s = register_reply(Err(ConnectedHomeError::Sqlx("down".to_string()))).unwrap().unwrap_err();
    assert_eq!(
        (s.code, s.message.as_str()),
        (Code::Internal, "Failed to register user. Please try again later.")
    );
}

#[test]
fn store_errors() {
    assert!(matches!(
        store_error(StoreFailure::RowNotFound, "mo".to_string()),
        ConnectedHomeError::UserAlreadyExists(u) if u == "mo"
    ));
    assert!(matches!(
        store_error(StoreFailure::Database("boom".to_string()), "mo".to_string()),
        ConnectedHomeError::Sqlx(m) if m == "boom"
    ));
}

#[test]
fn login() {
    let u = dto("ned", "pw");
    let token = login_reply(&u, "pw").unwrap().unwrap();
    assert!(BearerJwt::from(token).verify("SUPERSECRETKEY").is_ok());
    let s = login_reply(&u, "no").unwrap().unwrap_err();
    assert_eq!(
        (s.code, s.message.as_str()),
        (Code::Unauthenticated, "Failed to authenticate with provided credentials")
    );
}

#[test]
fn profile() {
    let s = profile_reply(None).unwrap().unwrap_err();
    assert_eq!((s.code, s.message.as_str()), (Code::Unauthenticated, "No valid auth token"));
    let good = create_jwt("olga").unwrap();
    let p = profile_reply(Some(good)).unwrap().unwrap();
    assert_eq!((p.first_name.as_str(), p.last_name.as_str(), p.street_number), ("John", "Doe", 123));
    assert_eq!((p.street.as_str(), p.city.as_str(), p.postal_code.as_str()), ("My Street", "Any Town", "90210"));
    let old = create_jwt_at("olga", Instant { secs: 1_000_000_000, nanos: 0 }).unwrap();
    assert_eq!(profile_reply(Some(old)).unwrap().unwrap_err().code, Code::Unauthenticated);
    let bad = BearerJwt::from("garbage".to_string());
    assert_eq!(profile_reply(Some(bad)).unwrap().unwrap_err().code, Code::Unauthenticated);
}

#[test]
fn outgoing_authorization() {
    assert_eq!(SendTracingContext::default().authorization(), None);
    let ctx = SendTracingContext::with_jwt(TypedJwt::from("t".to_string()));
    assert_eq!(ctx.authorization(), Some("{\"token\":\"t\"}".to_string()));
    let layer = RestoreTracingContextLayer {};
    assert_eq!(*layer.layer("svc").inner(), "svc");
}

#[test]
fn incoming_trace_fields() {
    let f = trace_fields(Some(b"00-abc-def-01"), Some(b"k=v")).unwrap();
    assert_eq!(
        f,
        vec![
            ("traceparent".to_string(), "00-abc-def-01".to_string()),
            ("tracestate".to_string(), "k=v".to_string())
        ]
    );
    assert_eq!(trace_fields(None, None).unwrap(), vec![]);
    assert_eq!(trace_fields(None, Some(b"s")).unwrap(), vec![("tracestate".to_string(), "s".to_string())]);
    assert!(trace_fields(Some(b"\x7f"), None).is_err());
    assert!(trace_fields(Some(b"ok"), Some(b"\x00")).is_err());
}

#[test]
fn replies_at_a_given_time() {
    let now = Instant { secs: 1_700_000_000, nanos: 7 };
    let token = register_reply_at(Ok(dto("lee", "pw")), now).unwrap().unwrap();
    let jwt = BearerJwt::from(token.clone());
    let claims = jwt.verify_at("SUPERSECRETKEY", Instant { secs: 1_700_000_600, nanos: 0 }).unwrap();
    assert_eq!(claims.len(), 2);
    assert_eq!(claims.get("username").map(|s| s.as_str()), Some("lee"));
    assert_eq!(
        jwt.verify_at("SUPERSECRETKEY", Instant { secs: 1_700_000_600, nanos: 1 }).err(),
        Some(connected_home::token::JwtError::EXPIRED)
    );
    // At the far end of time no token can be issued.
    assert!(register_reply_at(Ok(dto("lee", "pw")), Instant { secs: i64::MAX - 1, nanos: 0 }).is_none());

    let u = dto("ned", "pw");
    let t = login_reply_at(&u, "pw", now).unwrap().unwrap();
    assert_eq!(t, token_for("ned", now));
    assert_eq!(login_reply_at(&u, "x", now).unwrap().unwrap_err().code, Code::Unauthenticated);

    let e = login_request(None).unwrap_err();
    assert_eq!((e.code, e.message.as_str()), (Code::InvalidArgument, ""));
    let ok = login_request(Some(UserCredentials { username: "a".to_string(), password: "b".to_string() }));
    assert_eq!(ok.unwrap(), ("a".to_string(), "b".to_string()));

    let fresh = BearerJwt::from(token_for("olga", now));
    let p = profile_reply_at(Some(fresh.clone()), now).unwrap().unwrap();
    assert_eq!((p.first_name.as_str(), p.last_name.as_str()), ("John", "Doe"));
    let late = Instant { secs: 1_700_001_000, nanos: 0 };
    let s = profile_reply_at(Some(fresh), late).unwrap().unwrap_err();
    assert_eq!((s.code, s.message.as_str()), (Code::Unauthenticated, "No valid auth token"));
    assert!(profile_for_verdict(Err(connected_home::token::JwtError::INVALID)).is_err());
}

fn token_for(name: &str, now: Instant) -> String {
    create_jwt_at(name, now).unwrap().token
}
