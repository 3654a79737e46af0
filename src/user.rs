use vstd::prelude::*;
use vstd::string::{StrSliceExecFns, StringExecFns};
use crate::bridge::unix_now;
use crate::number::{decimal_value, parse_usize, parses_unsigned, unsigned_digits};
use crate::server::{names_server, Server};

verus! {

/// A user handle: a numeric id together with the server that owns it.
#[derive(Debug, Clone, PartialEq, Eq, Hash)]
pub struct UserID {
    pub uid: usize,
    pub server: Server,
}

/// `k` is the position of the first `@` in `s`.
pub open spec fn first_at(s: Seq<char>, k: int) -> bool {
    0 <= k < s.len() && s[k] == '@' && forall|j: int| 0 <= j < k ==> s[j] != '@'
}

impl UserID {
    pub fn new(uid: usize, server: Server) -> (r: Self)
        ensures
            r.uid == uid,
            r.server == server,
    {
        UserID { uid, server }
    }

    /// Parses `uid@host`: the part before the first `@` is the uid, the rest
    /// names the server.
    pub fn from_str(s: &str) -> (r: Option<Self>)
        ensures
            (forall|k: int| !first_at(s@, k)) ==> r is None,
            forall|k: int|
                first_at(s@, k) ==> {
                    &&& (r is Some <==> parses_unsigned(s@.take(k), usize::MAX as nat))
                    &&& r matches Some(id) ==> id.uid as nat == decimal_value(
                        unsigned_digits(s@.take(k)),
                    ) && names_server(id.server, s@.skip(k + 1))
                },
    {
        let n = s.unicode_len();
        let mut i: usize = 0;
        while i < n
            invariant
                n == s@.len(),
                0 <= i <= n,
                forall|j: int| 0 <= j < i ==> s@[j] != '@',
            decreases n - i,
        {
            if s.get_char(i) == '@' {
                let raw = s.substring_char(0, i);
                let host = s.substring_char(i + 1, n);
                proof {
                    assert(first_at(s@, i as int));
                    assert forall|k: int| first_at(s@, k) implies k == i by {
                        if k < i {
                            assert(s@[k] != '@');
                        } else if k > i {
                            assert(s@[i as int] != '@');
                        }
                    }
                }
                return match parse_usize(raw) {
                    Some(uid) => Some(UserID::new(uid, Server::from_string(host))),
                    None => None,
                };
            }
            i = i + 1;
        }
        None
    }

    /// The guest handle has uid 0.
    pub fn is_guest(&self) -> (r: bool)
        ensures
            r == (self.uid == 0),
    {
        self.uid == 0
    }
}

/// What a `User` holds.
pub ghost struct UserView {
    pub uid: usize,
    pub server: Server,
    pub username: Seq<char>,
    pub email: Seq<char>,
    pub is_active: bool,
    pub is_verified: bool,
    pub cached_at: u64,
}

/// Seconds from `cached_at` to `now`; none for a time stamp in the future.
pub open spec fn age_at(cached_at: u64, now: u64) -> u64 {
    if now >= cached_at {
        (now - cached_at) as u64
    } else {
        0
    }
}

/// `u` is the guest of `server`, stamped at `now`.
pub open spec fn is_guest_view(u: UserView, server: Server, now: u64) -> bool {
    &&& u.uid == 0
    &&& u.server == server
    &&& u.username == "Guest"@
    &&& u.email == "guest@example.com"@
    &&& !u.is_active
    &&& !u.is_verified
    &&& u.cached_at == now
}

/// An identity as cached in a session, with the time it was taken.
#[derive(Debug, Clone)]
pub struct User {
    pub id: UserID,
    username: String,
    email: String,
    is_active: bool,
    is_verified: bool,
    cached_at: u64,
}

impl View for User {
    type V = UserView;

    closed spec fn view(&self) -> UserView {
        UserView {
            uid: self.id.uid,
            server: self.id.server,
            username: self.username@,
            email: self.email@,
            is_active: self.is_active,
            is_verified: self.is_verified,
            cached_at: self.cached_at,
        }
    }
}

impl User {
    /// A user stamped at time `now`.
    pub fn new_at(
        id: UserID,
        username: String,
        email: String,
        is_active: bool,
        is_verified: bool,
        now: u64,
    ) -> (r: Self)
        ensures
            r@ == (UserView {
                uid: id.uid,
                server: id.server,
                username: username@,
                email: email@,
                is_active,
                is_verified,
                cached_at: now,
            }),
    {
        User { id, username, email, is_active, is_verified, cached_at: now }
    }

    /// A user stamped with the system clock.
    pub fn new(id: UserID, username: String, email: String, is_active: bool, is_verified: bool) -> (r:
        Self)
        ensures
            r@.uid == id.uid,
            r@.server == id.server,
            r@.username == username@,
            r@.email == email@,
            r@.is_active == is_active,
            r@.is_verified == is_verified,
    {
        let now = unix_now();
        User::new_at(id, username, email, is_active, is_verified, now)
    }

    pub fn get_uid(&self) -> (r: usize)
        ensures
            r == self@.uid,
    {
        self.id.uid
    }

    pub fn get_server(&self) -> (r: &Server)
        ensures
            *r == self@.server,
    {
        &self.id.server
    }

    pub fn get_user_id(&self) -> (r: &UserID)
        ensures
            r.uid == self@.uid,
            r.server == self@.server,
    {
        &self.id
    }

    pub fn get_username(&self) -> (r: &str)
        ensures
            r@ == self@.username,
    {
        self.username.as_str()
    }

    pub fn get_email(&self) -> (r: &str)
        ensures
            r@ == self@.email,
    {
        self.email.as_str()
    }

    pub fn is_active(&self) -> (r: bool)
        ensures
            r == self@.is_active,
    {
        self.is_active
    }

    pub fn is_verified(&self) -> (r: bool)
        ensures
            r == self@.is_verified,
    {
        self.is_verified
    }

    /// When this identity was taken.
    pub fn get_cached_time(&self) -> (r: u64)
        ensures
            r == self@.cached_at,
    {
        self.cached_at
    }

    /// Seconds from when this identity was taken to `now`.
    pub fn cache_age_at(&self, now: u64) -> (r: u64)
        ensures
            r == age_at(self@.cached_at, now),
    {
        now.saturating_sub(self.cached_at)
    }

    /// Seconds since this identity was taken, by the system clock.
    pub fn cache_age(&self) -> (r: u64)
        ensures
            exists|now: u64| r == #[trigger] age_at(self@.cached_at, now),
    {
        let now = unix_now();
        self.cache_age_at(now)
    }

    /// The same identity, with its time stamp replaced by `time` if given.
    pub fn set_cached_time(self, time: Option<u64>) -> (r: Self)
        ensures
            r@ == (match time {
                Some(t) => UserView { cached_at: t, ..self@ },
                None => self@,
            }),
    {
        let mut u = self;
        if let Some(t) = time {
            u.cached_at = t;
        }
        u
    }

    /// The anonymous identity of `server`, stamped at `now`.
    pub fn guest_at(server: Server, now: u64) -> (r: Self)
        ensures
            is_guest_view(r@, server, now),
    {
        User::new_at(
            UserID::new(0, server),
            String::from_str("Guest"),
            String::from_str("guest@example.com"),
            false,
            false,
            now,
        )
    }

    /// The anonymous identity of `server`, stamped with the system clock.
    pub fn guest(server: Server) -> (r: Self)
        ensures
            exists|now: u64| #[trigger] is_guest_view(r@, server, now),
    {
        let now = unix_now();
        User::guest_at(server, now)
    }

    /// A field-by-field copy.
    pub fn copy(&self) -> (r: Self)
        ensures
            r@ == self@,
    {
        User {
            id: UserID { uid: self.id.uid, server: self.id.server.copy() },
            username: self.username.clone(),
            email: self.email.clone(),
            is_active: self.is_active,
            is_verified: self.is_verified,
            cached_at: self.cached_at,
        }
    }
}

} // verus!
