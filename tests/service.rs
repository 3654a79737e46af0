use sfx_auth::service::{
    change_password, create_user, login, logout, refresh_token, status_for, user_me,
};
use sfx_auth::error::FopError;
use sfx_auth::store::AuthManager;

const NOW: u64 = 1_000;

fn store_with_alice() -> AuthManager {
    let mut store = AuthManager::empty();
    let r = create_user(&mut store, true, true, "alice", "alice@example.com", "Secret1");
    assert!(r.success);
    assert_eq!(r.status, 200);
    assert_eq!(r.username, Some("alice".to_string()));
    store
}

#[test]
fn status_codes_of_errors() {
    assert_eq!(status_for(&FopError::TokenInvalid), 403);
    assert_eq!(status_for(&FopError::PasswordMismatch), 401);
    assert_eq!(status_for(&FopError::UserNotFound), 400);
    assert_eq!(status_for(&FopError::UserNameNotValid), 400);
    assert_eq!(status_for(&FopError::EmailNotValid), 400);
    assert_eq!(status_for(&FopError::TooManyRequest), 400);
    assert_eq!(status_for(&FopError::UserTooBig), 500);
    assert_eq!(status_for(&FopError::Other("x".to_string())), 500);
}

#[test]
fn create_user_checks_method_admin_and_names() {
    let mut store = store_with_alice();
    assert_eq!(create_user(&mut store, false, true, "bob", "bob@x.y", "pw").status, 405);
    assert_eq!(create_user(&mut store, true, false, "bob", "bob@x.y", "pw").status, 403);
    let taken = create_user(&mut store, true, true, "alice", "bob@x.y", "pw");
    assert_eq!(taken.status, 400);
    assert_eq!(taken.error, Some("Username is not valid".to_string()));
    assert!(!taken.success);
}

#[test]
fn login_then_me_then_logout() {
    let mut store = store_with_alice();
    assert_eq!(login(&mut store, false, "alice".to_string(), "Secret1", NOW).status, 405);
    let unknown = login(&mut store, true, "nobody".to_string(), "Secret1", NOW);
    assert_eq!(unknown.status, 400);
    assert_eq!(unknown.message, Some("User not found".to_string()));
    let wrong = login(&mut store, true, "alice@example.com".to_string(), "bad", NOW);
    assert_eq!(wrong.status, 401);
    assert_eq!(wrong.message, Some("Password mismatch".to_string()));

    let ok = login(&mut store, true, "alice".to_string(), "Secret1", NOW);
    assert_eq!(ok.status, 200);
    let token = ok.access_token.unwrap();

    let me = user_me(&store, Some(token.clone()), NOW + 1);
    assert_eq!(me.status, 200);
    let user = me.user.unwrap();
    assert_eq!(user.uid, 1);
    assert_eq!(user.username, "alice");
    assert!(user.is_active && user.is_verified);
    assert_eq!(user_me(&store, None, NOW).status, 401);
    assert_eq!(user_me(&store, Some("x".to_string()), NOW).status, 403);

    let out = logout(&mut store, Some(token.clone()), NOW + 2);
    assert_eq!(out.status, 200);
    assert_eq!(out.message, Some("Logged out".to_string()));
    assert_eq!(logout(&mut store, Some(token), NOW + 3).status, 403);
    assert_eq!(logout(&mut store, None, NOW + 3).status, 401);
}

#[test]
fn refresh_and_change_password_replies() {
    let mut store = store_with_alice();
    let token = login(&mut store, true, "1".to_string(), "Secret1", NOW).access_token.unwrap();
    let refreshed = refresh_token(&mut store, Some(token.clone()), NOW + 5);
    assert_eq!(refreshed.status, 200);
    let new_token = refreshed.access_token.unwrap();
    assert_ne!(new_token, token);
    assert_eq!(refresh_token(&mut store, None, NOW).status, 403);
    assert_eq!(refresh_token(&mut store, Some("x".to_string()), NOW).status, 403);

    assert_eq!(change_password(&mut store, None, "a", "b", NOW).status, 403);
    assert_eq!(change_password(&mut store, Some(new_token.clone()), "", "b", NOW).status, 400);
    assert_eq!(
        change_password(&mut store, Some(new_token.clone()), "wrong", "New2", NOW + 6).status,
        401
    );
    let changed = change_password(&mut store, Some(new_token), "Secret1", "New2", NOW + 6);
    assert_eq!(changed.status, 200);
    assert!(changed.success);
    assert!(store.check_password(1, "New2"));
}
