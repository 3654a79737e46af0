use sfx_auth::error::FopError;
use sfx_auth::store::{AuthManager, UserStorage, TOKEN_LIFETIME};

fn record(username: &str, email: &str, password: &str, salt: &str) -> UserStorage {
    UserStorage {
        username: username.to_string(),
        email: email.to_string(),
        password_hash: hotaru_lib::ende::aes::encrypt(password, salt).unwrap(),
        password_salt: salt.to_string(),
        profile: "null".to_string(),
    }
}

fn alice_store() -> (AuthManager, u32) {
    let mut auth = AuthManager::empty();
    auth.register_user("alice", "alice@example.com", "Secret1").unwrap();
    let uid = auth.uid_from_username_or_email_or_uid("alice".to_string()).unwrap();
    (auth, uid)
}

#[test]
fn test_auth_user() {
    let users = vec![
        (1_u32, record("Admin", "redstone@fds.moe", "js", "suki")),
        (2_u32, record("App", "Sabi", "ustc", "aes")),
    ];
    let auth = AuthManager::new(users);
    assert!(auth.check_password(1, "js"));
}

#[test]
fn loading_passes_over_taken_names_and_keeps_the_counter() {
    let users = vec![
        (3_u32, record("Admin", "a@b.c", "x", "s1")),
        (9_u32, record("Admin", "other@b.c", "y", "s2")),
        (4_u32, record("Bob", "bob@b.c", "z", "s3")),
    ];
    let mut auth = AuthManager::new(users);
    assert_eq!(auth.get_uid_by_username("Admin"), Some(3));
    assert_eq!(auth.get_uid_by_email("other@b.c"), None);
    assert_eq!(auth.get_uid_by_username("Bob"), Some(4));
    let listed: Vec<u32> = auth.records().iter().map(|(uid, _)| *uid).collect();
    assert_eq!(listed, vec![3, 4]);
    assert_eq!(auth.new_uid(), Some(10));
}

#[test]
fn register_then_login_resolves_to_the_new_uid() {
    let (mut auth, uid) = alice_store();
    assert_eq!(uid, 1);
    let token = auth.login_user(uid, "Secret1").unwrap();
    assert_eq!(token.chars().count(), 32);
    assert!(token.chars().all(|c| c.is_ascii_alphanumeric()));
    assert_eq!(auth.authenticate_user(&token), Ok(uid));
}

#[test]
fn registered_password_is_checked() {
    let (auth, uid) = alice_store();
    assert!(auth.check_password(uid, "Secret1"));
    assert!(!auth.check_password(uid, "Secret2"));
    assert!(!auth.check_password(uid + 1, "Secret1"));
}

#[test]
fn password_in_compares_the_decryption() {
    assert!(sfx_auth::store::password_in(Some("pw".to_string()), "pw"));
    assert!(!sfx_auth::store::password_in(Some("pw".to_string()), "pw2"));
    assert!(!sfx_auth::store::password_in(None, "pw"));
}

#[test]
fn register_refuses_taken_username_and_email() {
    let (mut auth, _) = alice_store();
    assert_eq!(
        auth.register_user("alice", "other@example.com", "x"),
        Err(FopError::UserNameNotValid)
    );
    assert_eq!(
        auth.register_user("alicia", "alice@example.com", "x"),
        Err(FopError::EmailNotValid)
    );
    assert_eq!(auth.register_user("alicia", "alicia@example.com", "x"), Ok(()));
    assert_eq!(auth.get_uid_by_username("alicia"), Some(2));
}

#[test]
fn register_refuses_malformed_names() {
    let mut auth = AuthManager::empty();
    assert_eq!(auth.register_user("1abc", "a@b.c", "x"), Err(FopError::UserNameNotValid));
    assert_eq!(auth.register_user("", "a@b.c", "x"), Err(FopError::UserNameNotValid));
    assert_eq!(auth.register_user("ab cd", "a@b.c", "x"), Err(FopError::UserNameNotValid));
    assert_eq!(auth.register_user("abc", "a@@b.c", "x"), Err(FopError::EmailNotValid));
    assert_eq!(auth.register_user("abc", "a@", "x"), Err(FopError::EmailNotValid));
    assert_eq!(auth.register_user("abc", "abc", "x"), Err(FopError::EmailNotValid));
    assert_eq!(auth.register_user("a(b)[c]{d}|e,f.g_h+i-j", "a.b@c-d.e", "x"), Ok(()));
}

#[test]
fn register_with_given_hash_stores_it() {
    let mut auth = AuthManager::empty();
    let hash = hotaru_lib::ende::aes::encrypt("pw", "salt1").unwrap();
    auth.register_user_with("carol", "carol@x.y", hash.clone(), "salt1".to_string()).unwrap();
    let records = auth.records();
    assert_eq!(records.len(), 1);
    assert_eq!(records[0].0, 1);
    assert_eq!(records[0].1.password_hash, hash);
    assert_eq!(records[0].1.password_salt, "salt1");
    assert_eq!(records[0].1.profile, "{}");
    assert!(auth.check_password(1, "pw"));
}

#[test]
fn expired_token_never_resolves() {
    let (mut auth, uid) = alice_store();
    let token = auth.login_user_at(uid, "Secret1", "tok".to_string(), 1000).unwrap();
    assert_eq!(token, "tok");
    assert_eq!(auth.authenticate_user_at("tok", 1000 + TOKEN_LIFETIME - 1), Ok(uid));
    assert_eq!(
        auth.authenticate_user_at("tok", 1000 + TOKEN_LIFETIME),
        Err(FopError::TokenInvalid)
    );
    assert_eq!(auth.authenticate_user("tok"), Err(FopError::TokenInvalid));
}

#[test]
fn login_with_wrong_password_is_refused() {
    let (mut auth, uid) = alice_store();
    assert_eq!(auth.login_user(uid, "nope"), Err(FopError::PasswordMismatch));
    assert_eq!(
        auth.login_user_at(uid, "nope", "tok".to_string(), 10),
        Err(FopError::PasswordMismatch)
    );
    assert_eq!(auth.authenticate_user_at("tok", 10), Err(FopError::TokenInvalid));
}

#[test]
fn a_held_token_is_not_issued_twice() {
    let (mut auth, uid) = alice_store();
    auth.login_user_at(uid, "Secret1", "tok".to_string(), 10).unwrap();
    assert!(matches!(
        auth.login_user_at(uid, "Secret1", "tok".to_string(), 20),
        Err(FopError::Other(_))
    ));
}

#[test]
fn logged_out_token_never_resolves_again() {
    let (mut auth, uid) = alice_store();
    let token = auth.login_user(uid, "Secret1").unwrap();
    assert_eq!(auth.logout_user(&token), Ok(()));
    assert_eq!(auth.authenticate_user(&token), Err(FopError::TokenInvalid));
    assert_eq!(auth.logout_user(&token), Err(FopError::TokenInvalid));
}

#[test]
fn logout_of_an_expired_token_is_refused() {
    let (mut auth, uid) = alice_store();
    auth.login_user_at(uid, "Secret1", "tok".to_string(), 10).unwrap();
    assert_eq!(
        auth.logout_user_at("tok", 10 + TOKEN_LIFETIME),
        Err(FopError::TokenInvalid)
    );
    assert_eq!(auth.logout_user_at("tok", 11), Ok(()));
    assert_eq!(auth.authenticate_user_at("tok", 12), Err(FopError::TokenInvalid));
}

#[test]
fn refresh_gives_a_new_token_and_keeps_the_old_one() {
    let (mut auth, uid) = alice_store();
    let old = auth.login_user(uid, "Secret1").unwrap();
    let new = auth.refresh_token(&old).unwrap();
    assert_ne!(new, old);
    assert_eq!(auth.authenticate_user(&new), Ok(uid));
    assert_eq!(auth.authenticate_user(&old), Ok(uid));
}

#[test]
fn refresh_at_sets_a_fresh_expiry() {
    let (mut auth, uid) = alice_store();
    auth.login_user_at(uid, "Secret1", "old".to_string(), 100).unwrap();
    assert_eq!(auth.refresh_token_at("old", "new".to_string(), 200), Ok("new".to_string()));
    assert_eq!(auth.authenticate_user_at("old", 100 + TOKEN_LIFETIME - 1), Ok(uid));
    assert_eq!(
        auth.authenticate_user_at("old", 100 + TOKEN_LIFETIME),
        Err(FopError::TokenInvalid)
    );
    assert_eq!(auth.authenticate_user_at("new", 200 + TOKEN_LIFETIME - 1), Ok(uid));
    assert_eq!(
        auth.refresh_token_at("gone", "newer".to_string(), 200),
        Err(FopError::TokenInvalid)
    );
    assert!(matches!(
        auth.refresh_token_at("old", "new".to_string(), 200),
        Err(FopError::Other(_))
    ));
}

#[test]
fn alice_email_and_username_give_same_uid() {
    let (auth, _) = alice_store();
    let by_email = auth.uid_from_username_or_email_or_uid("alice@example.com".to_string());
    let by_name = auth.uid_from_username_or_email_or_uid("alice".to_string());
    assert!(by_email.is_ok());
    assert_eq!(by_email, by_name);
}

#[test]
fn identifiers_try_number_then_email_then_username() {
    let (auth, _) = alice_store();
    assert_eq!(auth.uid_from_username_or_email_or_uid("42".to_string()), Ok(42));
    assert_eq!(auth.uid_from_username_or_email_or_uid("+7".to_string()), Ok(7));
    assert_eq!(
        auth.uid_from_username_or_email_or_uid("4294967296".to_string()),
        Err(FopError::UserNotFound)
    );
    assert_eq!(
        auth.uid_from_username_or_email_or_uid("bob".to_string()),
        Err(FopError::UserNotFound)
    );
}

#[test]
fn change_password_needs_the_current_password() {
    let (mut auth, uid) = alice_store();
    auth.login_user_at(uid, "Secret1", "tok".to_string(), 10).unwrap();
    assert_eq!(
        auth.change_password_at("tok", "wrong", "Secret2", 11),
        Err(FopError::PasswordMismatch)
    );
    assert!(auth.check_password(uid, "Secret1"));
    assert_eq!(auth.change_password_at("tok", "Secret1", "Secret2", 11), Ok(()));
    assert!(auth.check_password(uid, "Secret2"));
    assert!(!auth.check_password(uid, "Secret1"));
    assert_eq!(
        auth.change_password_at("nope", "Secret2", "Secret3", 11),
        Err(FopError::TokenInvalid)
    );
}

#[test]
fn change_password_by_clock() {
    let (mut auth, uid) = alice_store();
    let token = auth.login_user(uid, "Secret1").unwrap();
    assert_eq!(auth.change_password(&token, "Secret1", "Other9"), Ok(()));
    assert!(auth.check_password(uid, "Other9"));
}

#[test]
fn change_username_moves_the_index() {
    let (mut auth, uid) = alice_store();
    let token = auth.login_user(uid, "Secret1").unwrap();
    assert_eq!(auth.change_username(&token, "alicia"), Ok(()));
    assert_eq!(auth.get_uid_by_username("alicia"), Some(uid));
    assert_eq!(auth.get_uid_by_username("alice"), None);
    assert_eq!(auth.change_username(&token, "alicia"), Err(FopError::UserNameNotValid));
    assert_eq!(auth.change_username(&token, "9lives"), Err(FopError::UserNameNotValid));
    assert_eq!(auth.change_username("bad", "zed"), Err(FopError::TokenInvalid));
}

#[test]
fn change_email_moves_the_index() {
    let (mut auth, uid) = alice_store();
    auth.login_user_at(uid, "Secret1", "tok".to_string(), 10).unwrap();
    assert_eq!(auth.change_email_at("tok", "a@new.org", 11), Ok(()));
    assert_eq!(auth.get_uid_by_email("a@new.org"), Some(uid));
    assert_eq!(auth.get_uid_by_email("alice@example.com"), None);
    assert_eq!(auth.change_email_at("tok", "broken", 11), Err(FopError::EmailNotValid));
    assert_eq!(auth.change_email_at("tok", "x@y.z", 99999), Err(FopError::TokenInvalid));
}

#[test]
fn edit_user_replaces_the_record() {
    let (mut auth, uid) = alice_store();
    auth.login_user_at(uid, "Secret1", "tok".to_string(), 10).unwrap();
    let same = auth.get_userstorage_instance_at("tok".to_string(), 11).unwrap();
    assert_eq!(auth.edit_user_at("tok".to_string(), same, 11), Err(FopError::UserNameNotValid));
    let mut edited = auth.get_userstorage_instance_at("tok".to_string(), 11).unwrap();
    edited.username = "al".to_string();
    assert_eq!(
        auth.edit_user_at("tok".to_string(), edited.clone(), 11),
        Err(FopError::EmailNotValid)
    );
    edited.email = "al@x.y".to_string();
    edited.profile = "{\"bio\":\"hi\"}".to_string();
    assert_eq!(auth.edit_user_at("tok".to_string(), edited, 11), Ok(()));
    assert_eq!(auth.get_uid_by_username("al"), Some(uid));
    assert_eq!(auth.get_uid_by_email("al@x.y"), Some(uid));
    assert_eq!(auth.get_uid_by_username("alice"), None);
    assert_eq!(
        auth.get_user_profile_at("tok".to_string(), 11),
        Ok("{\"bio\":\"hi\"}".to_string())
    );
}

#[test]
fn user_info_and_profile_need_a_valid_token() {
    let (mut auth, uid) = alice_store();
    let token = auth.login_user(uid, "Secret1").unwrap();
    let info = auth.get_user_info(token.clone()).unwrap();
    assert_eq!(info.uid, uid);
    assert_eq!(info.username, "alice");
    assert_eq!(info.email, "alice@example.com");
    assert_eq!(auth.get_user_profile(token.clone()), Ok("{}".to_string()));
    assert_eq!(auth.get_userstorage_instance(token).unwrap().username, "alice");
    assert!(matches!(auth.get_user_info("x".to_string()), Err(FopError::TokenInvalid)));
    assert_eq!(auth.get_user_profile("x".to_string()), Err(FopError::TokenInvalid));
}

#[test]
fn list_users_omits_passwords_in_order() {
    let (mut auth, _) = alice_store();
    auth.register_user("bob", "bob@example.com", "pw").unwrap();
    let users = auth.list_users();
    assert_eq!(users.len(), 2);
    assert_eq!(users[0].username, "alice");
    assert_eq!(users[1].username, "bob");
    assert_eq!(users[1].email, "bob@example.com");
    assert_eq!(users[1].profile, "{}");
}

#[test]
fn sweep_drops_expired_tokens() {
    let (mut auth, uid) = alice_store();
    auth.login_user_at(uid, "Secret1", "a".to_string(), 0).unwrap();
    auth.login_user_at(uid, "Secret1", "b".to_string(), 5000).unwrap();
    auth.cleanup_expired_tokens_at(TOKEN_LIFETIME);
    assert_eq!(auth.logout_user_at("a", 0), Err(FopError::TokenInvalid));
    assert_eq!(auth.authenticate_user_at("b", 5001), Ok(uid));
}

#[test]
fn uids_run_out_at_the_top() {
    let users = vec![(u32::MAX, record("Top", "top@x.y", "pw", "s"))];
    let mut auth = AuthManager::new(users);
    assert!(matches!(auth.register_user("next", "next@x.y", "pw"), Err(FopError::Other(_))));
    assert_eq!(auth.new_uid(), None);
}

#[test]
fn error_messages() {
    assert_eq!(FopError::TooManyRequest.to_string(), "Too many requests");
    assert_eq!(FopError::UserNameNotValid.to_string(), "Username is not valid");
    assert_eq!(FopError::EmailNotValid.to_string(), "Email is not valid");
    assert_eq!(FopError::PasswordMismatch.to_string(), "Password mismatch");
    assert_eq!(FopError::UserTooBig.to_string(), "User data too big");
    assert_eq!(FopError::UserNotFound.to_string(), "User not found");
    assert_eq!(FopError::TokenInvalid.to_string(), "Token is invalid");
    assert_eq!(FopError::Other("boom".to_string()).to_string(), "boom");
}

#[test]
fn listing_and_snapshot_cover_every_account_once() {
    let (mut auth, _) = alice_store();
    auth.register_user("bob", "bob@example.com", "pw").unwrap();
    assert_eq!(auth.records().len(), 2);
    assert_eq!(auth.list_users().len(), 2);
    assert_eq!(auth.new_uid(), Some(3));
}
