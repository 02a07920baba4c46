use connected_home::token::claims::{text_less_than, Claims};
use connected_home::token::{check_expiry, issue_token_at, try_verify_token_at, verify_token_at, JwtError};
use connected_home::util::datetime::Instant;
use std::time::{SystemTime, UNIX_EPOCH};
use hmac::{Hmac, Mac};
use jwt::SignWithKey;
use sha2::Sha256;
use std::collections::BTreeMap;

fn sign(pairs: &[(&str, &str)], key: &[u8]) -> String {
    let key: Hmac<Sha256> = Hmac::new_from_slice(key).unwrap();
    let mut claims = BTreeMap::new();
    for (k, v) in pairs {
        claims.insert(k.to_string(), v.to_string());
    }
    claims.sign_with_key(&key).unwrap()
}

#[test]
fn rendering_and_parsing_timestamps() {
    // Rendering: the expiry claim of a token issued at the epoch.
    let epoch = Instant { secs: 0, nanos: 0 };
    let token = issue_token_at("dave", b"k", epoch).unwrap();
    let claims = verify_token_at(&token, b"k", epoch).unwrap();
    assert_eq!(claims.get("expiry").map(|s| s.as_str()), Some("1970-01-01 00:10:00 +0000"));
    // Parsing, with an offset: 12:00 at +01:00 is 11:00 UTC.
    let mut claims = Claims::new();
    claims.insert("expiry".to_string(), "2023-03-01 12:00:00 +0100".to_string());
    let c = check_expiry(claims, Instant { secs: 1677668400, nanos: 0 }).unwrap();
    assert_eq!(check_expiry(c, Instant { secs: 1677668400, nanos: 1 }).err(), Some(JwtError::EXPIRED));
    // Text that is no timestamp is reported, not read.
    let bad = sign(&[("expiry", "yesterday")], b"k");
    assert!(try_verify_token_at(&bad, b"k", epoch).is_none());
    // An expiry beyond what chrono can render: no token.
    assert!(issue_token_at("dave", b"k", Instant { secs: i64::MAX - 600, nanos: 0 }).is_none());
}

#[test]
fn instant_order() {
    let a = Instant { secs: 10, nanos: 5 };
    assert!(a.is_before(&Instant { secs: 11, nanos: 0 }));
    assert!(a.is_before(&Instant { secs: 10, nanos: 6 }));
    assert!(!a.is_before(&Instant { secs: 10, nanos: 5 }));
    assert!(!a.is_before(&Instant { secs: 9, nanos: 999 }));
}

#[test]
fn issued_token_verifies_until_it_expires() {
    let now = Instant { secs: 1_700_000_000, nanos: 250 };
    let token = issue_token_at("alice", b"secret", now).unwrap();
    let claims = verify_token_at(&token, b"secret", now).unwrap();
    assert_eq!(claims.len(), 2);
    assert_eq!(claims.get("username").map(|s| s.as_str()), Some("alice"));
    assert_eq!(claims.get("expiry").map(|s| s.as_str()), Some("2023-11-14 22:23:20 +0000"));
    // The expiry is read back at whole seconds: the last instant it stands.
    let edge = Instant { secs: 1_700_000_600, nanos: 0 };
    assert!(verify_token_at(&token, b"secret", edge).is_ok());
    let later = Instant { secs: 1_700_000_600, nanos: 1 };
    assert_eq!(verify_token_at(&token, b"secret", later).err(), Some(JwtError::EXPIRED));
}

#[test]
fn tokens_under_another_key_or_malformed_are_invalid() {
    let now = Instant { secs: 1_700_000_000, nanos: 0 };
    let token = issue_token_at("alice", b"secret", now).unwrap();
    assert_eq!(verify_token_at(&token, b"other", now).err(), Some(JwtError::INVALID));
    assert_eq!(verify_token_at("not a token", b"secret", now).err(), Some(JwtError::INVALID));
    assert_eq!(verify_token_at("", b"secret", now).err(), Some(JwtError::INVALID));
}

#[test]
fn token_without_expiry_is_invalid() {
    let token = sign(&[("username", "bob")], b"secret");
    let now = Instant { secs: 0, nanos: 0 };
    assert_eq!(verify_token_at(&token, b"secret", now).err(), Some(JwtError::INVALID));
}

#[test]
fn unreadable_expiry_is_reported_not_panicked() {
    let token = sign(&[("username", "bob"), ("expiry", "tomorrow")], b"secret");
    let now = Instant { secs: 0, nanos: 0 };
    assert!(try_verify_token_at(&token, b"secret", now).is_none());
    let good = sign(&[("username", "bob"), ("expiry", "2030-01-01 00:00:00 +0000")], b"secret");
    assert!(try_verify_token_at(&good, b"secret", now).unwrap().is_ok());
}

#[test]
fn expiry_check_on_claims() {
    let mut claims = Claims::new();
    claims.insert("expiry".to_string(), "2000-01-01 00:00:00 +0000".to_string());
    let before = Instant { secs: 946684799, nanos: 0 };
    let after = Instant { secs: 946684801, nanos: 0 };
    let c = check_expiry(claims, before).unwrap();
    assert_eq!(check_expiry(c, after).err(), Some(JwtError::EXPIRED));
    assert_eq!(check_expiry(Claims::new(), before).err(), Some(JwtError::INVALID));
}

#[test]
fn expired_tokens_stay_expired() {
    let now = Instant { secs: 1_600_000_000, nanos: 0 };
    let token = issue_token_at("carol", b"k", now).unwrap();
    let mut t = 1_600_000_601i64;
    while t < 1_600_001_000 {
        assert_eq!(
            verify_token_at(&token, b"k", Instant { secs: t, nanos: 0 }).err(),
            Some(JwtError::EXPIRED)
        );
        t += 37;
    }
}

#[test]
fn claims_insert_replaces() {
    let mut c = Claims::new();
    assert_eq!(c.len(), 0);
    c.insert("a".to_string(), "1".to_string());
    c.insert("b".to_string(), "2".to_string());
    c.insert("a".to_string(), "3".to_string());
    assert_eq!(c.len(), 2);
    assert_eq!(c.get("a").map(|s| s.as_str()), Some("3"));
    assert_eq!(c.get("b").map(|s| s.as_str()), Some("2"));
    assert_eq!(c.get("c"), None);
}

#[test]
fn issuing_at_the_end_of_time_fails() {
    assert!(issue_token_at("x", b"k", Instant { secs: i64::MAX - 10, nanos: 0 }).is_none());
    let since = SystemTime::now().duration_since(UNIX_EPOCH).unwrap();
    let now = Instant { secs: since.as_secs() as i64, nanos: since.subsec_nanos() };
    assert!(issue_token_at("x", b"k", now).is_some());
}

#[test]
fn claims_are_held_in_key_order() {
    let mut c = Claims::new();
    c.insert("username".to_string(), "u".to_string());
    c.insert("expiry".to_string(), "e".to_string());
    c.insert("aud".to_string(), "a".to_string());
    c.insert("expiry".to_string(), "f".to_string());
    let keys: Vec<&str> = c.entries().iter().map(|(k, _)| k.as_str()).collect();
    assert_eq!(keys, vec!["aud", "expiry", "username"]);
    assert_eq!(c.get("expiry").map(|s| s.as_str()), Some("f"));
    assert!(text_less_than("ab", "abc"));
    assert!(text_less_than("Zeta", "alpha"));
    assert!(!text_less_than("abc", "abc"));
    assert!(text_less_than("é", "€"));
}

#[test]
fn issued_tokens_are_compact() {
    let token = issue_token_at("alice", b"secret", Instant { secs: 1_700_000_000, nanos: 0 }).unwrap();
    assert_eq!(token.matches('.').count(), 2);
    assert!(token.chars().all(|c| c.is_ascii_alphanumeric() || c == '-' || c == '_' || c == '.'));
}
