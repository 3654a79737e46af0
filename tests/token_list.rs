use sfx_auth::token::TokenList;
use std::time::{SystemTime, UNIX_EPOCH};

fn now_secs() -> u64 {
    SystemTime::now()
        .duration_since(UNIX_EPOCH)
        .expect("time went backwards")
        .as_secs()
}

#[test]
fn test_add_and_authenticate() {
    let mut list = TokenList::new();
    let token = "token123".to_string();
    let uid = 42;
    let expires = now_secs() + 100;
    list.add(token.clone(), uid, expires);

    assert_eq!(list.authenticate_user(&token), Some(uid));
}

#[test]
fn test_expired_token() {
    let mut list = TokenList::new();
    let token = "token_exp".to_string();
    let uid = 7;
    let expires = now_secs() - 1;
    list.add(token.clone(), uid, expires);

    assert_eq!(list.authenticate_user(&token), None);
}

#[test]
fn test_cleanup_expired() {
    let mut list = TokenList::new();
    let good = "good".to_string();
    let bad = "bad".to_string();
    let uid1 = 1;
    let uid2 = 2;
    let expires1 = now_secs() + 50;
    let expires2 = now_secs() - 50;
    list.add(good.clone(), uid1, expires1);
    list.add(bad.clone(), uid2, expires2);

    assert_eq!(list.authenticate_user(&good), Some(uid1));
    assert_eq!(list.authenticate_user(&bad), None);

    list.cleanup_expired();

    assert!(list.contains_token(&good));
    assert!(!list.contains_token(&bad));
}

#[test]
fn test_remove_token() {
    let mut list = TokenList::new();
    let token = "toremove".to_string();
    let uid = 3;
    let expires = now_secs() + 100;

    list.add(token.clone(), uid, expires);
    assert_eq!(list.authenticate_user(&token), Some(uid));

    list.remove(&token);
    assert_eq!(list.authenticate_user(&token), None);
}

#[test]
fn token_resolves_only_before_its_expiry() {
    let mut list = TokenList::new();
    list.add("t".to_string(), 5, 1000);
    assert_eq!(list.authenticate_user_at("t", 999), Some(5));
    assert_eq!(list.authenticate_user_at("t", 1000), None);
    assert_eq!(list.authenticate_user_at("t", 5000), None);
    assert_eq!(list.authenticate_user_at("other", 10), None);
}

#[test]
fn adding_a_held_token_rebinds_it() {
    let mut list = TokenList::new();
    list.add("t".to_string(), 5, 1000);
    list.add("t".to_string(), 6, 2000);
    assert_eq!(list.authenticate_user_at("t", 1500), Some(6));
}

#[test]
fn cleanup_at_keeps_exactly_the_live_tokens() {
    let mut list = TokenList::new();
    list.add("a".to_string(), 1, 100);
    list.add("b".to_string(), 2, 101);
    list.add("c".to_string(), 3, 50);
    list.cleanup_expired_at(100);
    assert!(!list.contains_token("a"));
    assert!(list.contains_token("b"));
    assert!(!list.contains_token("c"));
    assert_eq!(list.authenticate_user_at("b", 100), Some(2));
}
