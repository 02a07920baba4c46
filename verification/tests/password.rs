use connected_home::gateway::users::user::User;
use connected_home::password::{hash, verify_password};
use connected_home::user_service::repo::UserDto;
use connected_home::util::datetime::Instant;

#[test]
fn hashed_password_verifies() {
    let h = hash(b"hunter2");
    assert!(h.starts_with("$argon2id$"));
    assert!(verify_password(&h, b"hunter2"));
    assert!(!verify_password(&h, b"hunter3"));
    assert!(!verify_password("not a hash", b"hunter2"));
    let empty = hash(b"");
    assert!(verify_password(&empty, b""));
}

#[test]
fn salts_differ() {
    assert_ne!(hash(b"same"), hash(b"same"));
}

#[test]
fn new_user_accepts_its_password() {
    let u = User::new("frank".to_string(), "pa55".to_string());
    assert_eq!(u.username(), "frank");
    assert!(u.verify_password("pa55".to_string()));
    assert!(!u.verify_password("pass".to_string()));
    assert_eq!(u.created_at(), u.updated_at());
    assert!(!u.locked());
    assert_ne!(u.password(), "pa55");
}

#[test]
fn stored_user_checks_password() {
    let dto = UserDto {
        id: 7,
        username: "gina".to_string(),
        password: hash(b"secret"),
        created_at: Instant { secs: 1, nanos: 0 },
        updated_at: Instant { secs: 1, nanos: 0 },
        locked: false,
    };
    assert!(dto.verify_password("secret"));
    assert!(!dto.verify_password("Secret"));
}
