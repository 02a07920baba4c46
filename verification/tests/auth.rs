use connected_home::common::auth::{Jwt as BearerJwt, ToStrError};
use connected_home::gateway::users::jwt::Jwt as GatewayJwt;
use connected_home::gateway::users::user::User;
use connected_home::token::{issue_token_at, JwtError};
use connected_home::types::jwt::Jwt as TypedJwt;
use connected_home::util::datetime::Instant;
use std::time::{SystemTime, UNIX_EPOCH};
use connected_home::util::json::token_object;

fn now() -> Instant {
    let since = SystemTime::now().duration_since(UNIX_EPOCH).unwrap();
    Instant { secs: since.as_secs() as i64, nanos: since.subsec_nanos() }
}

fn fresh_token(user: &str, key: &[u8]) -> String {
    issue_token_at(user, key, now()).unwrap()
}

#[test]
fn bearer_prefix_is_ignored() {
    let token = fresh_token("alice", b"key");
    let bare = BearerJwt::from(token.clone());
    let prefixed = BearerJwt::from(format!("Bearer {}", token));
    let a = bare.verify("key").unwrap();
    let b = prefixed.verify("key").unwrap();
    assert_eq!(a.get("username"), b.get("username"));
    assert_eq!(b.get("username").map(|s| s.as_str()), Some("alice"));
    // A prefix anywhere but at the front is not stripped.
    let odd = BearerJwt::from(format!("xBearer {}", token));
    assert_eq!(odd.verify("key").err(), Some(JwtError::INVALID));
    // Stripped once only.
    let twice = BearerJwt::from(format!("Bearer Bearer {}", token));
    assert_eq!(twice.verify("key").err(), Some(JwtError::INVALID));
}

#[test]
fn bearer_token_from_header() {
    let j = BearerJwt::try_from(b"Bearer abc").unwrap();
    assert_eq!(j.token, "Bearer abc");
    assert_eq!(j.to_string(), "Bearer abc");
    assert!(matches!(BearerJwt::try_from(b"caf\xc3\xa9"), Err(ToStrError)));
    assert_eq!(BearerJwt::default().token, "");
}

#[test]
fn typed_token_displays_as_json() {
    let j = TypedJwt::from("abc".to_string());
    assert_eq!(j.to_string(), "{\"token\":\"abc\"}");
    let q = TypedJwt::from("a\"b\\c\n".to_string());
    assert_eq!(q.to_string(), "{\"token\":\"a\\\"b\\\\c\\n\"}");
    assert_eq!(token_object(""), "{\"token\":\"\"}");
    assert_eq!(TypedJwt::default().token, "");
}

#[test]
fn typed_token_verifies_like_bearer_token() {
    let token = fresh_token("dave", b"k2");
    let j = TypedJwt::from(format!("Bearer {}", token));
    assert!(j.verify("k2").is_ok());
    assert_eq!(j.verify("k3").err(), Some(JwtError::INVALID));
    assert!(j.try_verify("k2").unwrap().is_ok());
}

#[test]
fn gateway_tokens_round_trip() {
    let user = User::from_parts(
        "erin".to_string(),
        "hash".to_string(),
        Instant { secs: 0, nanos: 0 },
        Instant { secs: 0, nanos: 0 },
        false,
    );
    let jwt = GatewayJwt::create(&user).unwrap();
    let claims = jwt.verify().unwrap();
    assert_eq!(claims.get("username").map(|s| s.as_str()), Some("erin"));
    assert!(claims.get("expiry").is_some());
    // Created long ago: expired now.
    let old = GatewayJwt::create_at(&user, Instant { secs: 1_000_000_000, nanos: 0 }).unwrap();
    assert_eq!(old.verify().err(), Some(JwtError::EXPIRED));
    assert_eq!(old.verify_at(Instant { secs: 1_000_000_001, nanos: 0 }).map(|c| c.len()).ok(), Some(2));
    assert_eq!(GatewayJwt::from("junk".to_string()).verify().err(), Some(JwtError::INVALID));
    assert!(jwt.to_string().starts_with("{\"token\":\"ey"));
}

#[test]
fn outside_errors_make_tokens_invalid() {
    let e: JwtError = JwtError::from(jwt::Error::InvalidSignature);
    assert_eq!(e, JwtError::INVALID);
}
