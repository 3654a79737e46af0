//! Properties that relate several operations of the store and of the
//! freshness controller, stated over the specifications those operations
//! are verified against.
use vstd::prelude::*;
use crate::bridge::aes_decrypt_of;
use crate::error::FopError;
use crate::freshness::{
    cache_update_is, identity_of, needs_fetch, plan_of, redirects, refresh_route,
    stamped, CacheUpdate, Identity, Plan, CACHE_VALID_TIME, HALF_VALID_TIME,
};
use crate::store::{
    after_register, password_matches, register_refusal, token_expiry, with_token,
    AuthView,
};
use crate::token::{live_tokens, token_resolves, TokenGrant};
use crate::user::{age_at, UserView};
use crate::validate::{email_well_formed, username_well_formed};

verus! {

/// Registering a well-formed, unused username and email succeeds; logging in
/// to the new account with the same password then succeeds, and the token it
/// issues resolves to the new uid for as long as the token is valid.
///
/// `hash` and `salt` are what registration stored, and `token` is the token
/// that login issues.
pub proof fn law_register_then_login(
    v: AuthView,
    username: Seq<char>,
    email: Seq<char>,
    password: Seq<char>,
    hash: Seq<char>,
    salt: Seq<char>,
    token: Seq<char>,
    login_at: u64,
    auth_at: u64,
)
    requires
        username_well_formed(username),
        email_well_formed(email),
        !v.usernames.contains_key(username),
        !v.emails.contains_key(email),
        v.max_uid < u32::MAX,
        aes_decrypt_of(hash, salt) == Some(password),
        !v.tokens.contains_key(token),
        auth_at < token_expiry(login_at),
    ensures
        register_refusal(v, username, email) is None,
        password_matches(after_register(v, username, email, hash, salt), (v.max_uid + 1) as u32, password),
        !after_register(v, username, email, hash, salt).tokens.contains_key(token),
        token_resolves(
            with_token(
                after_register(v, username, email, hash, salt),
                token,
                (v.max_uid + 1) as u32,
                login_at,
            ).tokens,
            token,
            auth_at,
        ) == Some((v.max_uid + 1) as u32),
{
}

/// Registration refuses a username that is already taken, and, with a valid
/// free username, an email that is already taken.
pub proof fn law_taken_names_refused(v: AuthView, username: Seq<char>, email: Seq<char>)
    ensures
        v.usernames.contains_key(username) ==> register_refusal(v, username, email) == Some(
            FopError::UserNameNotValid,
        ),
        username_well_formed(username) && !v.usernames.contains_key(username) && v.emails.contains_key(
            email,
        ) ==> register_refusal(v, username, email) == Some(FopError::EmailNotValid),
{
}

/// A token whose expiry is not after `now` does not resolve at `now` or at
/// any later time, whether or not expired tokens have been swept.
pub proof fn law_expired_token_never_resolves(
    tokens: Map<Seq<char>, TokenGrant>,
    t: Seq<char>,
    now: u64,
)
    requires
        tokens.contains_key(t),
        tokens[t].expires <= now,
    ensures
        forall|later: u64| now <= later ==> #[trigger] token_resolves(tokens, t, later) is None,
        forall|later: u64|
            now <= later ==> #[trigger] token_resolves(live_tokens(tokens, now), t, later) is None,
{
}

/// After a logout removes a token, the token resolves at no time.
pub proof fn law_logged_out_token_never_resolves(v: AuthView, t: Seq<char>)
    ensures
        forall|now: u64| #[trigger] token_resolves(v.tokens.remove(t), t, now) is None,
{
}

/// Refreshing a token valid at `now` issues a different token that resolves
/// to the same uid, and leaves the old token valid exactly as long as before.
pub proof fn law_refresh_keeps_old_token(v: AuthView, old_token: Seq<char>, new_token: Seq<char>, now: u64)
    requires
        token_resolves(v.tokens, old_token, now) is Some,
        !v.tokens.contains_key(new_token),
    ensures
        new_token != old_token,
        token_resolves(
            with_token(v, new_token, token_resolves(v.tokens, old_token, now)->Some_0, now).tokens,
            new_token,
            now,
        ) == token_resolves(v.tokens, old_token, now),
        forall|later: u64|
            #[trigger] token_resolves(
                with_token(v, new_token, token_resolves(v.tokens, old_token, now)->Some_0, now).tokens,
                old_token,
                later,
            ) == token_resolves(v.tokens, old_token, later),
{
    assert(now < v.tokens[old_token].expires);
}

/// A cached identity taken this very second is served as it is, with no
/// call to the credential service and no change to the cache.
pub proof fn law_fresh_cache_is_served(cached: UserView, now: u64)
    requires
        age_at(cached.cached_at, now) == 0,
    ensures
        plan_of(true, Some(cached), now) == Plan::UseCache,
        !needs_fetch(plan_of(true, Some(cached), now)),
        identity_of(plan_of(true, Some(cached), now), false) == Identity::Cached,
        cache_update_is(plan_of(true, Some(cached), now), false, CacheUpdate::Keep),
{
}

/// A cached identity just past half its validity is revalidated: the request
/// is redirected through the refresh route unless it is on that route, and a
/// successful fetch replaces the cache with an identity stamped `now`.
pub proof fn law_stale_cache_redirects(cached: UserView, fetched: UserView, now: u64, path: Seq<char>)
    requires
        age_at(cached.cached_at, now) == HALF_VALID_TIME + 1,
        path != refresh_route(),
    ensures
        plan_of(true, Some(cached), now) == Plan::Revalidate,
        needs_fetch(plan_of(true, Some(cached), now)),
        redirects(plan_of(true, Some(cached), now), path),
        forall|c: CacheUpdate| #[trigger]
            cache_update_is(plan_of(true, Some(cached), now), true, c) ==> c is Store,
        stamped(fetched, now).cached_at == now,
{
}

/// A cached identity past its validity whose fetch fails resolves to the
/// guest, and the cache entry is removed.
pub proof fn law_expired_cache_with_failed_fetch(cached: UserView, now: u64)
    requires
        age_at(cached.cached_at, now) == CACHE_VALID_TIME + 1,
    ensures
        plan_of(true, Some(cached), now) == Plan::FetchExpired,
        identity_of(plan_of(true, Some(cached), now), false) == Identity::Guest,
        forall|c: CacheUpdate| #[trigger]
            cache_update_is(plan_of(true, Some(cached), now), false, c) <==> c is Clear,
{
}

} // verus!
