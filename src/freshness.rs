//! Per-request decision on a session's cached identity: serve it, revalidate
//! it against the credential service, or fall back to the guest.
use vstd::prelude::*;
use vstd::string::StringExecFns;
use crate::server::Server;
use crate::user::{age_at, is_guest_view, User, UserView};

verus! {

/// Seconds after which a cached identity is no longer served.
pub const CACHE_VALID_TIME: u64 = 60 * 60;

/// Seconds after which a cached identity is revalidated.
pub const HALF_VALID_TIME: u64 = CACHE_VALID_TIME / 2;

/// How old a cached identity is.
#[derive(Debug, Clone, Copy, PartialEq, Eq, Structural)]
pub enum CacheState {
    /// Younger than `HALF_VALID_TIME`.
    Fresh,
    /// From `HALF_VALID_TIME` up to `CACHE_VALID_TIME`.
    Stale,
    /// Older than `CACHE_VALID_TIME`.
    Expired,
}

pub open spec fn cache_state_of(age: u64) -> CacheState {
    if age < HALF_VALID_TIME {
        CacheState::Fresh
    } else if age <= CACHE_VALID_TIME {
        CacheState::Stale
    } else {
        CacheState::Expired
    }
}

pub fn classify_cache_age(age: u64) -> (r: CacheState)
    ensures
        r == cache_state_of(age),
{
    if age < HALF_VALID_TIME {
        CacheState::Fresh
    } else if age <= CACHE_VALID_TIME {
        CacheState::Stale
    } else {
        CacheState::Expired
    }
}

/// What a request needs before its identity can be settled.
#[derive(Debug, Clone, Copy, PartialEq, Eq, Structural)]
pub enum Plan {
    /// No token: the guest, with no remote call.
    Anonymous,
    /// A fresh cache: served as it is, with no remote call.
    UseCache,
    /// A token but no cache: fetch the identity.
    FetchMissing,
    /// A stale cache: serve it, fetch a new one for the next request.
    Revalidate,
    /// An expired cache: fetch the identity.
    FetchExpired,
}

pub open spec fn plan_of(token_present: bool, cached: Option<UserView>, now: u64) -> Plan {
    if !token_present {
        Plan::Anonymous
    } else {
        match cached {
            None => Plan::FetchMissing,
            Some(u) => match cache_state_of(age_at(u.cached_at, now)) {
                CacheState::Fresh => Plan::UseCache,
                CacheState::Stale => Plan::Revalidate,
                CacheState::Expired => Plan::FetchExpired,
            },
        }
    }
}

/// Whether the plan calls the credential service.
pub open spec fn needs_fetch(p: Plan) -> bool {
    p is FetchMissing || p is Revalidate || p is FetchExpired
}

/// Which identity a request resolves to.
#[derive(Debug, Clone, Copy, PartialEq, Eq, Structural)]
pub enum Identity {
    Guest,
    Cached,
    Fetched,
}

/// The identity for plan `p`, given whether the fetch succeeded.
pub open spec fn identity_of(p: Plan, fetched: bool) -> Identity {
    match p {
        Plan::Anonymous => Identity::Guest,
        Plan::UseCache => Identity::Cached,
        Plan::Revalidate => Identity::Cached,
        Plan::FetchMissing | Plan::FetchExpired => if fetched {
            Identity::Fetched
        } else {
            Identity::Guest
        },
    }
}

/// What happens to the session's cached identity.
#[derive(Debug, Clone)]
pub enum CacheUpdate {
    /// Left as it is.
    Keep,
    /// Replaced by this identity.
    Store(User),
    /// Removed.
    Clear,
    /// Removed together with the session's token and server.
    Revoke,
}

/// The cache update for plan `p`, given whether the fetch succeeded; a
/// stored identity is the fetched one.
pub open spec fn cache_update_is(p: Plan, fetched: bool, c: CacheUpdate) -> bool {
    match p {
        Plan::Anonymous | Plan::UseCache => c is Keep,
        Plan::FetchMissing => if fetched {
            c is Store
        } else {
            c is Revoke
        },
        Plan::Revalidate => if fetched {
            c is Store
        } else {
            c is Keep
        },
        Plan::FetchExpired => if fetched {
            c is Store
        } else {
            c is Clear
        },
    }
}

/// The route that renews a session's token and then sends the client back.
pub open spec fn refresh_route() -> Seq<char> {
    "/user/refresh"@
}

/// Whether the request is answered by a redirect through the refresh route.
pub open spec fn redirects(p: Plan, path: Seq<char>) -> bool {
    p is Revalidate && path != refresh_route()
}

/// Where a redirect through the refresh route sends the client.
pub open spec fn refresh_location(path: Seq<char>) -> Seq<char> {
    "/user/refresh?redirect="@ + path
}

/// A fetched identity as it is cached: stamped with the time of the fetch.
pub open spec fn stamped(u: UserView, now: u64) -> UserView {
    UserView { cached_at: now, ..u }
}

/// The outcome for one request.
#[derive(Debug, Clone)]
pub struct Resolution {
    /// The identity that the request carries on.
    pub user: User,
    /// What to do with the session's cached identity.
    pub cache: CacheUpdate,
    /// Where to send the client instead of handling the request, if anywhere.
    pub redirect: Option<String>,
}

/// Decides what a request needs: `token_present` tells whether the session
/// holds a bearer token, `cached` is its cached identity.
pub fn plan_request(token_present: bool, cached: Option<&User>, now: u64) -> (r: Plan)
    ensures
        r == plan_of(
            token_present,
            match cached {
                Some(u) => Some(u@),
                None => None,
            },
            now,
        ),
{
    if !token_present {
        return Plan::Anonymous;
    }
    match cached {
        None => Plan::FetchMissing,
        Some(u) => match classify_cache_age(u.cache_age_at(now)) {
            CacheState::Fresh => Plan::UseCache,
            CacheState::Stale => Plan::Revalidate,
            CacheState::Expired => Plan::FetchExpired,
        },
    }
}

/// Settles a request planned as `plan`. `cached` is the session's cached
/// identity, `fetched` what the credential service returned (nothing when
/// the plan made no call, or the call failed), `host` the session's server
/// and `path` the request's path.
pub fn resolve_request(
    plan: Plan,
    cached: Option<User>,
    fetched: Option<User>,
    host: Server,
    now: u64,
    path: &str,
) -> (r: Resolution)
    requires
        plan is UseCache || plan is Revalidate ==> cached is Some,
        !needs_fetch(plan) ==> fetched is None,
    ensures
        cache_update_is(plan, fetched is Some, r.cache),
        r.cache matches CacheUpdate::Store(s) ==> s@ == stamped(fetched->Some_0@, now),
        match identity_of(plan, fetched is Some) {
            Identity::Guest => is_guest_view(r.user@, host, now),
            Identity::Cached => r.user@ == cached->Some_0@,
            Identity::Fetched => r.user@ == stamped(fetched->Some_0@, now),
        },
        redirects(plan, path@) ==> (r.redirect matches Some(loc) && loc@ == refresh_location(
            path@,
        )),
        !redirects(plan, path@) ==> r.redirect is None,
{
    match plan {
        Plan::Anonymous => Resolution {
            user: User::guest_at(host, now),
            cache: CacheUpdate::Keep,
            redirect: None,
        },
        Plan::UseCache => Resolution {
            user: cached.unwrap(),
            cache: CacheUpdate::Keep,
            redirect: None,
        },
        Plan::FetchMissing => match fetched {
            Some(f) => {
                let u = f.set_cached_time(Some(now));
                Resolution { user: u.copy(), cache: CacheUpdate::Store(u), redirect: None }
            },
            None => Resolution {
                user: User::guest_at(host, now),
                cache: CacheUpdate::Revoke,
                redirect: None,
            },
        },
        Plan::Revalidate => {
            let cache = match fetched {
                Some(f) => CacheUpdate::Store(f.set_cached_time(Some(now))),
                None => CacheUpdate::Keep,
            };
            let redirect = if String::from_str(path) == String::from_str("/user/refresh") {
                None
            } else {
                Some(String::from_str("/user/refresh?redirect=").concat(path))
            };
            Resolution { user: cached.unwrap(), cache, redirect }
        },
        Plan::FetchExpired => match fetched {
            Some(f) => {
                let u = f.set_cached_time(Some(now));
                Resolution { user: u.copy(), cache: CacheUpdate::Store(u), redirect: None }
            },
            None => Resolution {
                user: User::guest_at(host, now),
                cache: CacheUpdate::Clear,
                redirect: None,
            },
        },
    }
}

} // verus!
