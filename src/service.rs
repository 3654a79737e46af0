//! The credential service's endpoints: what each answers, given what the
//! request carries and the store. Reading the request and writing the JSON
//! reply are left to the host.
use vstd::prelude::*;
use crate::bridge::random_alphanumeric;
use vstd::string::{StrSliceExecFns, StringExecFns};
use crate::error::{error_message, FopError};
use crate::remote::WireUser;
use crate::store::{
    after_register, identifier_uid, password_matches, register_refusal, with_password_hash,
    with_token, AuthManager, AuthView, TOKEN_LENGTH,
};
use crate::bridge::aes_decrypt_of;
use crate::token::token_resolves;

verus! {

/// A reply of the service: its status code and the members of its JSON body.
#[derive(Debug, Clone)]
pub struct ServiceReply {
    pub status: u16,
    pub success: bool,
    /// The `message` member.
    pub message: Option<String>,
    /// The `error` member.
    pub error: Option<String>,
    /// The `access_token` member, sent with `token_type: "Bearer"`.
    pub access_token: Option<String>,
    /// The `username` member.
    pub username: Option<String>,
    /// The `user` member.
    pub user: Option<WireUser>,
}

/// The status code that reports `e`.
pub open spec fn status_of(e: FopError) -> u16 {
    match e {
        FopError::TokenInvalid => 403,
        FopError::PasswordMismatch => 401,
        FopError::UserTooBig | FopError::Other(_) => 500,
        _ => 400,
    }
}

pub fn status_for(e: &FopError) -> (r: u16)
    ensures
        r == status_of(*e),
{
    match e {
        FopError::TokenInvalid => 403,
        FopError::PasswordMismatch => 401,
        FopError::UserTooBig | FopError::Other(_) => 500,
        _ => 400,
    }
}

/// A failure whose text goes in `message`.
fn fail_message(status: u16, text: String) -> (r: ServiceReply)
    ensures
        r.status == status,
        !r.success,
        r.message matches Some(m) && m@ == text@,
        r.access_token is None,
{
    ServiceReply {
        status,
        success: false,
        message: Some(text),
        error: None,
        access_token: None,
        username: None,
        user: None,
    }
}

/// A failure whose text goes in `error`.
fn fail_error(status: u16, text: String) -> (r: ServiceReply)
    ensures
        r.status == status,
        !r.success,
        r.error matches Some(m) && m@ == text@,
        r.access_token is None,
{
    ServiceReply {
        status,
        success: false,
        message: None,
        error: Some(text),
        access_token: None,
        username: None,
        user: None,
    }
}

/// An empty success.
fn succeed() -> (r: ServiceReply)
    ensures
        r.status == 200,
        r.success,
        r.message is None && r.error is None && r.access_token is None,
{
    ServiceReply {
        status: 200,
        success: true,
        message: None,
        error: None,
        access_token: None,
        username: None,
        user: None,
    }
}

/// POST /users: registers an account on behalf of an administrator.
pub fn create_user(
    store: &mut AuthManager,
    is_post: bool,
    is_admin: bool,
    username: &str,
    email: &str,
    password: &str,
) -> (r: ServiceReply)
    requires
        old(store).wf(),
    ensures
        final(store).wf(),
        !is_post ==> r.status == 405 && !r.success,
        is_post && !is_admin ==> r.status == 403 && !r.success,
        is_post && is_admin && register_refusal(old(store)@, username@, email@) is Some ==> r.status
            == 400 && !r.success && (r.error matches Some(m) && m@ == error_message(
            register_refusal(old(store)@, username@, email@)->Some_0,
        )),
        is_post && is_admin && register_refusal(old(store)@, username@, email@) is None
            && old(store)@.max_uid < u32::MAX ==> r.success || r.status == 500,
        r.success ==> r.status == 200 && (r.username matches Some(n) && n@ == username@) && exists|
            hash: Seq<char>,
            salt: Seq<char>,
        |
            aes_decrypt_of(hash, salt) == Some(password@) && #[trigger] after_register(
                old(store)@,
                username@,
                email@,
                hash,
                salt,
            ) == final(store)@,
        !r.success ==> final(store)@ == old(store)@,
{
    if !is_post {
        return fail_error(405, String::from_str("Method not allowed"));
    }
    if !is_admin {
        return fail_error(403, String::from_str("Unauthorized"));
    }
    match store.register_user(username, email, password) {
        Ok(()) => {
            let mut r = succeed();
            r.username = Some(String::from_str(username));
            r
        },
        Err(e) => {
            let status = status_for(&e);
            fail_error(status, e.to_string())
        },
    }
}

/// GET /users/me: who the bearer token belongs to at `now`.
pub fn user_me(store: &AuthManager, token: Option<String>, now: u64) -> (r: ServiceReply)
    requires
        store.wf(),
    ensures
        token is None ==> r.status == 401 && !r.success,
        token is Some && token_resolves(store@.tokens, token->Some_0@, now) is None ==> r.status == 403
            && !r.success && (r.error matches Some(m) && m@ == error_message(FopError::TokenInvalid)),
        token is Some && token_resolves(store@.tokens, token->Some_0@, now) is Some ==> r.status
            == 200 && r.success && (r.user matches Some(w) && w.uid == token_resolves(
            store@.tokens,
            token->Some_0@,
            now,
        )->Some_0 && w.username@ == store@.users[w.uid as u32].username && w.email@
            == store@.users[w.uid as u32].email && w.is_active && w.is_verified),
{
    let token = match token {
        Some(t) => t,
        None => return fail_error(401, String::from_str("Token invalid")),
    };
    match store.get_user_info_at(token, now) {
        Ok(info) => {
            let mut r = succeed();
            r.user = Some(
                WireUser {
                    uid: info.uid as i64,
                    username: info.username,
                    email: info.email,
                    is_active: true,
                    is_verified: true,
                },
            );
            r
        },
        Err(e) => {
            let status = status_for(&e);
            fail_error(status, e.to_string())
        },
    }
}

/// POST /users/me/password: changes the password of the token's account.
pub fn change_password(
    store: &mut AuthManager,
    token: Option<String>,
    old_password: &str,
    new_password: &str,
    now: u64,
) -> (r: ServiceReply)
    requires
        old(store).wf(),
    ensures
        final(store).wf(),
        token is None ==> r.status == 403 && !r.success,
        token is Some && (old_password@.len() == 0 || new_password@.len() == 0) ==> r.status == 400
            && !r.success,
        token is Some && old_password@.len() > 0 && new_password@.len() > 0 ==> {
            &&& token_resolves(old(store)@.tokens, token->Some_0@, now) is None ==> r.status == 403
                && !r.success
            &&& (token_resolves(old(store)@.tokens, token->Some_0@, now) matches Some(uid) && !password_matches(
                old(store)@,
                uid,
                old_password@,
            )) ==> r.status == 401 && !r.success
            &&& r.success ==> token_resolves(old(store)@.tokens, token->Some_0@, now) is Some && exists|
                hash: Seq<char>,
            |
                aes_decrypt_of(
                    hash,
                    old(store)@.users[token_resolves(old(store)@.tokens, token->Some_0@, now)->Some_0].password_salt,
                ) == Some(new_password@) && final(store)@ == #[trigger] with_password_hash(
                    old(store)@,
                    token_resolves(old(store)@.tokens, token->Some_0@, now)->Some_0,
                    hash,
                )
        },
        token is Some && old_password@.len() > 0 && new_password@.len() > 0 && token_resolves(
            old(store)@.tokens,
            token->Some_0@,
            now,
        ) is Some && password_matches(
            old(store)@,
            token_resolves(old(store)@.tokens, token->Some_0@, now)->Some_0,
            old_password@,
        ) ==> r.success || r.status == 500,
        r.success ==> r.status == 200,
        !r.success ==> final(store)@ == old(store)@,
{
    let token = match token {
        Some(t) => t,
        None => return fail_error(403, String::from_str("Token invalid")),
    };
    if old_password.unicode_len() == 0 || new_password.unicode_len() == 0 {
        return fail_error(400, String::from_str("Invalid old or new password"));
    }
    match store.change_password_at(token.as_str(), old_password, new_password, now) {
        Ok(()) => succeed(),
        Err(e) => {
            let status = status_for(&e);
            fail_error(status, e.to_string())
        },
    }
}

/// GET or POST /auth/refresh: a new token for the account of a token valid
/// at `now`; the old token stays valid.
pub fn refresh_token(store: &mut AuthManager, token: Option<String>, now: u64) -> (r: ServiceReply)
    requires
        old(store).wf(),
    ensures
        final(store).wf(),
        token is None ==> r.status == 403 && !r.success,
        token is Some && token_resolves(old(store)@.tokens, token->Some_0@, now) is None ==> r.status
            == 403 && !r.success,
        token is Some && token_resolves(old(store)@.tokens, token->Some_0@, now) is Some ==> r.success
            || r.status == 500,
        r.success ==> r.status == 200 && token is Some && token_resolves(
            old(store)@.tokens,
            token->Some_0@,
            now,
        ) is Some && (r.access_token matches Some(n) && !old(store)@.tokens.contains_key(n@)
            && final(store)@ == with_token(
            old(store)@,
            n@,
            token_resolves(old(store)@.tokens, token->Some_0@, now)->Some_0,
            now,
        )),
        !r.success ==> final(store)@ == old(store)@,
{
    let token = match token {
        Some(t) => t,
        None => return fail_error(403, String::from_str("Token invalid")),
    };
    let fresh = random_alphanumeric(TOKEN_LENGTH);
    match store.refresh_token_at(token.as_str(), fresh, now) {
        Ok(new_token) => {
            let mut r = succeed();
            r.access_token = Some(new_token);
            r
        },
        Err(e) => {
            let status = status_for(&e);
            fail_error(status, e.to_string())
        },
    }
}

/// POST /auth/login: a token for the account named by `id` (a uid, an email
/// or a username) when `password` is its password.
pub fn login(store: &mut AuthManager, is_post: bool, id: String, password: &str, now: u64) -> (r:
    ServiceReply)
    requires
        old(store).wf(),
    ensures
        final(store).wf(),
        !is_post ==> r.status == 405 && !r.success,
        is_post && identifier_uid(old(store)@, id@) is None ==> r.status == 400 && !r.success && (
        r.message matches Some(m) && m@ == error_message(FopError::UserNotFound)),
        is_post && identifier_uid(old(store)@, id@) is Some && !password_matches(
            old(store)@,
            identifier_uid(old(store)@, id@)->Some_0,
            password@,
        ) ==> r.status == 401 && !r.success && (r.message matches Some(m) && m@ == error_message(
            FopError::PasswordMismatch,
        )),
        is_post && identifier_uid(old(store)@, id@) is Some && password_matches(
            old(store)@,
            identifier_uid(old(store)@, id@)->Some_0,
            password@,
        ) ==> r.success || r.status == 500,
        r.success ==> r.status == 200 && is_post && identifier_uid(old(store)@, id@) is Some && (
        r.access_token is Some && !old(store)@.tokens.contains_key(r.access_token->Some_0@)
            && final(store)@ == with_token(
            old(store)@,
            r.access_token->Some_0@,
            identifier_uid(old(store)@, id@)->Some_0,
            now,
        )),
        !r.success ==> final(store)@ == old(store)@,
{
    if !is_post {
        return fail_message(405, String::from_str("Method not allowed"));
    }
    let uid = match store.uid_from_username_or_email_or_uid(id) {
        Ok(uid) => uid,
        Err(e) => {
            let status = status_for(&e);
            return fail_message(status, e.to_string());
        },
    };
    let fresh = random_alphanumeric(TOKEN_LENGTH);
    match store.login_user_at(uid, password, fresh, now) {
        Ok(token) => {
            let mut r = succeed();
            r.access_token = Some(token);
            r
        },
        Err(e) => {
            let status = status_for(&e);
            fail_message(status, e.to_string())
        },
    }
}

/// POST /auth/logout: revokes a token valid at `now`.
pub fn logout(store: &mut AuthManager, token: Option<String>, now: u64) -> (r: ServiceReply)
    requires
        old(store).wf(),
    ensures
        final(store).wf(),
        token is None ==> r.status == 401 && !r.success && final(store)@ == old(store)@,
        token is Some && token_resolves(old(store)@.tokens, token->Some_0@, now) is None ==> r.status
            == 403 && !r.success && final(store)@ == old(store)@,
        token is Some && token_resolves(old(store)@.tokens, token->Some_0@, now) is Some ==> r.status
            == 200 && r.success && (r.message matches Some(m) && m@ == "Logged out"@)
            && final(store)@ == (AuthView { tokens: old(store)@.tokens.remove(token->Some_0@), ..old(store)@ }),
{
    let token = match token {
        Some(t) => t,
        None => return fail_error(401, String::from_str("Invalid authorization header")),
    };
    match store.logout_user_at(token.as_str(), now) {
        Ok(()) => {
            let mut r = succeed();
            r.message = Some(String::from_str("Logged out"));
            r
        },
        Err(e) => {
            let status = status_for(&e);
            fail_error(status, e.to_string())
        },
    }
}

} // verus!
