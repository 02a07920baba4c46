use connected_home::util::text::{decimal_string, has_prefix, header_text, same_text, strip_prefix, trim_prefix};

#[test]
fn prefix_checks() {
    assert!(has_prefix("Bearer abc", "Bearer "));
    assert!(!has_prefix("Bear", "Bearer "));
    assert!(has_prefix("anything", ""));
    assert_eq!(strip_prefix("file:/run/secret", "file:"), Some("/run/secret"));
    assert_eq!(strip_prefix("plain", "file:"), None);
    assert_eq!(trim_prefix("Bearer xyz", "Bearer "), "xyz");
    assert_eq!(trim_prefix("xyz", "Bearer "), "xyz");
    assert!(same_text("login", "login"));
    assert!(!same_text("login", "logout"));
    assert!(!same_text("log", "login"));
}

#[test]
fn decimal_rendering() {
    assert_eq!(decimal_string(0), "0");
    assert_eq!(decimal_string(7), "7");
    assert_eq!(decimal_string(5432), "5432");
    assert_eq!(decimal_string(u64::MAX as u128), "18446744073709551615");
    assert_eq!(decimal_string(u128::MAX), "340282366920938463463374607431768211455");
}

#[test]
fn header_text_follows_visible_ascii() {
    assert_eq!(header_text(b"Bearer abc.def"), Some("Bearer abc.def".to_string()));
    assert_eq!(header_text(b"tab\there"), Some("tab\there".to_string()));
    assert_eq!(header_text(b"bad\nline"), None);
    assert_eq!(header_text(&[0xc3, 0xa9]), None);
    assert_eq!(header_text(b""), Some(String::new()));
}
