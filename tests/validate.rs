use sfx_auth::validate::{email_format_ok, username_format_ok};

#[test]
fn username_rules() {
    assert!(username_format_ok("alice"));
    assert!(username_format_ok("a1,._+-()[]{}|"));
    assert!(!username_format_ok(""));
    assert!(!username_format_ok("_alice"));
    assert!(!username_format_ok("al ice"));
    assert!(!username_format_ok("al@ice"));
    assert!(!username_format_ok("\u{e9}t\u{e9}"));
}

#[test]
fn email_rules() {
    assert!(email_format_ok("alice@example.com"));
    assert!(email_format_ok("a@b"));
    assert!(!email_format_ok("1a@b"));
    assert!(!email_format_ok("alice"));
    assert!(!email_format_ok("alice@"));
    assert!(!email_format_ok("a@b@c"));
    assert!(!email_format_ok("a b@c"));
}
