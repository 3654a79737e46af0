use sfx_auth::server::Server;
use sfx_auth::user::{User, UserID};

#[test]
fn server_from_string() {
    assert_eq!(Server::from_string("local"), Server::Local);
    assert_eq!(Server::from_string("auth.example"), Server::MainAuth("auth.example".to_string()));
    assert!(Server::from_string("local").is_local());
    assert!(!Server::from_string("Local").is_local());
    assert_eq!(Server::Local.get_host(), "local");
    assert_eq!(Server::MainAuth("h.io".to_string()).get_host(), "h.io");
}

#[test]
fn server_addresses() {
    assert_eq!(Server::Local.get_address("localhost:3003"), "http://localhost:3003");
    assert_eq!(
        Server::MainAuth("auth.example".to_string()).get_address("localhost:3003"),
        "https://auth.example"
    );
}

#[test]
fn user_id_parses_uid_at_host() {
    let id = UserID::from_str("123@auth.example").unwrap();
    assert_eq!(id.uid, 123);
    assert_eq!(id.server, Server::MainAuth("auth.example".to_string()));
    let local = UserID::from_str("0@local").unwrap();
    assert!(local.is_guest());
    assert_eq!(local.server, Server::Local);
    let nested = UserID::from_str("5@a@b").unwrap();
    assert_eq!(nested.server, Server::MainAuth("a@b".to_string()));
    assert!(UserID::from_str("123").is_none());
    assert!(UserID::from_str("x@host").is_none());
    assert!(UserID::from_str("@host").is_none());
}

#[test]
fn guest_and_accessors() {
    let g = User::guest_at(Server::Local, 77);
    assert_eq!(g.get_uid(), 0);
    assert!(g.get_user_id().is_guest());
    assert_eq!(g.get_username(), "Guest");
    assert_eq!(g.get_email(), "guest@example.com");
    assert!(!g.is_active());
    assert!(!g.is_verified());
    assert_eq!(g.get_cached_time(), 77);
    assert_eq!(g.cache_age_at(100), 23);
    let clocked = User::guest(Server::Local);
    assert_eq!(clocked.get_uid(), 0);
    assert!(clocked.cache_age() < 5);
}

#[test]
fn set_cached_time_rewinds_or_keeps() {
    let u = User::new(UserID::new(3, Server::Local), "bob".to_string(), "b@x.y".to_string(), true, false);
    let kept = u.clone().set_cached_time(None);
    assert_eq!(kept.get_cached_time(), u.get_cached_time());
    let moved = u.set_cached_time(Some(10));
    assert_eq!(moved.get_cached_time(), 10);
    assert_eq!(moved.get_uid(), 3);
    assert!(moved.is_active());
}
