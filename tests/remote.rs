use sfx_auth::remote::{
    acknowledged_result, password_change_ready,
    bearer_header, fetch_self_result, health_result, logout_result, token_from_authorization,
    token_result, Envelope, Reply, WireUser,
};
use sfx_auth::server::Server;

fn envelope(success: bool) -> Envelope {
    Envelope {
        success,
        message: None,
        error: None,
        access_token: None,
        user: None,
        status: None,
    }
}

#[test]
fn fetch_self_reads_the_user_object() {
    let mut e = envelope(true);
    e.user = Some(WireUser {
        uid: 12,
        username: "alice".to_string(),
        email: "alice@example.com".to_string(),
        is_active: true,
        is_verified: false,
    });
    let host = Server::MainAuth("auth.example".to_string());
    let user = fetch_self_result(&Reply::Json(e), host.clone(), 500).unwrap();
    assert_eq!(user.get_uid(), 12);
    assert_eq!(user.get_server(), &host);
    assert_eq!(user.get_username(), "alice");
    assert_eq!(user.get_cached_time(), 500);
}

#[test]
fn fetch_self_failures_carry_the_message() {
    let mut e = envelope(false);
    e.error = Some("Token is invalid".to_string());
    let f = fetch_self_result(&Reply::Json(e), Server::Local, 1).unwrap_err();
    assert_eq!(f.message, Some("Token is invalid".to_string()));
    let mut neg = envelope(true);
    neg.user = Some(WireUser {
        uid: -1,
        username: "x".to_string(),
        email: "x@y.z".to_string(),
        is_active: false,
        is_verified: false,
    });
    assert!(fetch_self_result(&Reply::Json(neg), Server::Local, 1).is_err());
    assert!(fetch_self_result(&Reply::Unreachable, Server::Local, 1).unwrap_err().message.is_none());
    assert!(fetch_self_result(&Reply::NotJson, Server::Local, 1).is_err());
}

#[test]
fn token_replies() {
    let mut e = envelope(true);
    e.access_token = Some("abc".to_string());
    assert_eq!(token_result(&Reply::Json(e)).unwrap(), "abc");
    let mut bad = envelope(false);
    bad.message = Some("Password mismatch".to_string());
    bad.error = Some("ignored".to_string());
    assert_eq!(
        token_result(&Reply::Json(bad)).unwrap_err().message,
        Some("Password mismatch".to_string())
    );
    assert!(token_result(&Reply::Json(envelope(true))).is_err());
}

#[test]
fn logout_and_health_replies() {
    assert!(logout_result(&Reply::Json(envelope(true))).is_ok());
    assert!(logout_result(&Reply::NotJson).is_err());
    let mut ok = envelope(false);
    ok.status = Some("ok".to_string());
    assert!(health_result(&Reply::Json(ok)));
    let mut down = envelope(false);
    down.status = Some("down".to_string());
    assert!(!health_result(&Reply::Json(down)));
    assert!(!health_result(&Reply::Unreachable));
}

#[test]
fn bearer_headers() {
    assert_eq!(bearer_header("abc"), "Bearer abc");
    assert_eq!(token_from_authorization("Bearer abc"), Some("abc".to_string()));
    assert_eq!(token_from_authorization("Bearer "), None);
    assert_eq!(token_from_authorization("Basic abc"), None);
    assert_eq!(token_from_authorization("bearer abc"), None);
}

#[test]
fn acknowledgements_and_password_change_check() {
    assert!(acknowledged_result(&Reply::Json(envelope(true))).is_ok());
    let mut refused = envelope(false);
    refused.error = Some("Password mismatch".to_string());
    assert_eq!(
        acknowledged_result(&Reply::Json(refused)).unwrap_err().message,
        Some("Password mismatch".to_string())
    );
    assert!(password_change_ready("a", "b"));
    assert!(!password_change_ready("", "b"));
    assert!(!password_change_ready("a", ""));
}
