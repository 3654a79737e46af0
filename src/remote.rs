//! Turns replies of the remote credential service into typed results. The
//! HTTP exchange itself is left to the host; it hands over what it received.
use vstd::prelude::*;
use vstd::string::{StrSliceExecFns, StringExecFns};
use crate::server::Server;
use crate::user::{User, UserID, UserView};

verus! {

/// The `user` object of a `/users/me` reply.
#[derive(Debug, Clone)]
pub struct WireUser {
    pub uid: i64,
    pub username: String,
    pub email: String,
    pub is_active: bool,
    pub is_verified: bool,
}

/// The fields of a JSON reply that the client reads; absent fields are
/// `None`, and an absent `success` is `false`.
#[derive(Debug, Clone)]
pub struct Envelope {
    pub success: bool,
    pub message: Option<String>,
    pub error: Option<String>,
    pub access_token: Option<String>,
    pub user: Option<WireUser>,
    pub status: Option<String>,
}

/// A reply as the transport saw it.
#[derive(Debug, Clone)]
pub enum Reply {
    /// No response: a transport error or a timeout.
    Unreachable,
    /// A response whose body is not JSON.
    NotJson,
    Json(Envelope),
}

/// A failed call, with the server's explanation when it gave one.
#[derive(Debug, Clone)]
pub struct RemoteFailure {
    pub message: Option<String>,
}

/// The explanation carried by a reply: its `message`, else its `error`.
pub open spec fn reply_message(r: Reply) -> Option<Seq<char>> {
    match r {
        Reply::Json(e) => match e.message {
            Some(m) => Some(m@),
            None => match e.error {
                Some(m) => Some(m@),
                None => None,
            },
        },
        _ => None,
    }
}

/// `f` carries the explanation of `r`.
pub open spec fn fails_with(f: RemoteFailure, r: Reply) -> bool {
    match f.message {
        Some(m) => reply_message(r) == Some(m@),
        None => reply_message(r) is None,
    }
}

/// The user that a successful `/users/me` reply describes, if its uid is a
/// valid one.
pub open spec fn reply_user(r: Reply) -> Option<WireUser> {
    match r {
        Reply::Json(e) => if e.success {
            match e.user {
                Some(w) => if 0 <= w.uid <= usize::MAX {
                    Some(w)
                } else {
                    None
                },
                None => None,
            }
        } else {
            None
        },
        _ => None,
    }
}

fn failure_of(reply: &Reply) -> (f: RemoteFailure)
    ensures
        fails_with(f, *reply),
{
    match reply {
        Reply::Json(e) => match &e.message {
            Some(m) => RemoteFailure { message: Some(m.clone()) },
            None => match &e.error {
                Some(m) => RemoteFailure { message: Some(m.clone()) },
                None => RemoteFailure { message: None },
            },
        },
        _ => RemoteFailure { message: None },
    }
}

/// The identity in a `/users/me` reply from `host`, stamped at `now`.
pub fn fetch_self_result(reply: &Reply, host: Server, now: u64) -> (r: Result<User, RemoteFailure>)
    ensures
        match reply_user(*reply) {
            Some(w) => r matches Ok(u) && u@ == (UserView {
                uid: w.uid as usize,
                server: host,
                username: w.username@,
                email: w.email@,
                is_active: w.is_active,
                is_verified: w.is_verified,
                cached_at: now,
            }),
            None => r matches Err(f) && fails_with(f, *reply),
        },
{
    if let Reply::Json(e) = reply {
        if e.success {
            if let Some(w) = &e.user {
                if 0 <= w.uid && w.uid as u64 <= usize::MAX as u64 {
                    let id = UserID::new(w.uid as usize, host);
                    return Ok(
                        User::new_at(
                            id,
                            w.username.clone(),
                            w.email.clone(),
                            w.is_active,
                            w.is_verified,
                            now,
                        ),
                    );
                }
            }
        }
    }
    Err(failure_of(reply))
}

/// The token in a login or refresh reply.
pub fn token_result(reply: &Reply) -> (r: Result<String, RemoteFailure>)
    ensures
        match *reply {
            Reply::Json(e) => if e.success && e.access_token is Some {
                r matches Ok(t) && t@ == e.access_token->Some_0@
            } else {
                r matches Err(f) && fails_with(f, *reply)
            },
            _ => r matches Err(f) && fails_with(f, *reply),
        },
{
    if let Reply::Json(e) = reply {
        if e.success {
            if let Some(t) = &e.access_token {
                return Ok(t.clone());
            }
        }
    }
    Err(failure_of(reply))
}

/// Whether a reply that carries no data, such as that of a logout or a
/// password change, reports success.
pub fn acknowledged_result(reply: &Reply) -> (r: Result<(), RemoteFailure>)
    ensures
        (reply matches Reply::Json(e) && e.success) ==> r is Ok,
        !(reply matches Reply::Json(e) && e.success) ==> (r matches Err(f) && fails_with(f, *reply)),
{
    if let Reply::Json(e) = reply {
        if e.success {
            return Ok(());
        }
    }
    Err(failure_of(reply))
}

/// Whether a logout reply reports success.
pub fn logout_result(reply: &Reply) -> (r: Result<(), RemoteFailure>)
    ensures
        (reply matches Reply::Json(e) && e.success) ==> r is Ok,
        !(reply matches Reply::Json(e) && e.success) ==> (r matches Err(f) && fails_with(f, *reply)),
{
    acknowledged_result(reply)
}

/// Whether a password change may be sent: both passwords are given.
pub fn password_change_ready(old_password: &str, new_password: &str) -> (r: bool)
    ensures
        r == (old_password@.len() > 0 && new_password@.len() > 0),
{
    old_password.unicode_len() > 0 && new_password.unicode_len() > 0
}

/// Whether a health reply reports `{"status": "ok"}`.
pub fn health_result(reply: &Reply) -> (r: bool)
    ensures
        r == (reply matches Reply::Json(e) && e.status matches Some(s) && s@ == "ok"@),
{
    match reply {
        Reply::Json(e) => match &e.status {
            Some(s) => *s == String::from_str("ok"),
            None => false,
        },
        _ => false,
    }
}

/// The value of an `Authorization` header carrying `token`.
pub fn bearer_header(token: &str) -> (r: String)
    ensures
        r@ == "Bearer "@ + token@,
{
    String::from_str("Bearer ").concat(token)
}

/// The token of an `Authorization: Bearer <token>` header; nothing for any
/// other header or an empty token.
pub fn token_from_authorization(header: &str) -> (r: Option<String>)
    ensures
        header@.len() > 7 && header@.take(7) == "Bearer "@ ==> (r matches Some(t) && t@
            == header@.skip(7)),
        !(header@.len() > 7 && header@.take(7) == "Bearer "@) ==> r is None,
{
    let n = header.unicode_len();
    if n <= 7 {
        return None;
    }
    let prefix = header.substring_char(0, 7);
    if String::from_str(prefix) == String::from_str("Bearer ") {
        Some(String::from_str(header.substring_char(7, n)))
    } else {
        None
    }
}

} // verus!
