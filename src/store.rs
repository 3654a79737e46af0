use vstd::prelude::*;
use std::collections::HashMap;
use crate::bridge::{aes_decrypt, aes_decrypt_of, aes_encrypt, random_alphanumeric, unix_now};
use crate::number::{decimal_value, parse_u32, parses_unsigned, unsigned_digits};
use crate::validate::{
    email_format_ok, email_well_formed, is_ascii_alnum, username_format_ok, username_well_formed,
};
use crate::error::FopError;
use crate::strmap::StrMap;
use crate::token::{token_resolves, TokenGrant, TokenList};

verus! {

broadcast use vstd::std_specs::hash::group_hash_axioms;

/// Seconds for which a freshly minted token stays valid.
pub const TOKEN_LIFETIME: u64 = 3600;

/// Characters in a minted token.
pub const TOKEN_LENGTH: usize = 32;

/// Characters in a password salt.
pub const SALT_LENGTH: usize = 16;

/// One account as the store keeps it.
#[derive(Clone, Debug)]
pub struct UserStorage {
    pub username: String,
    pub email: String,
    pub password_hash: String,
    pub password_salt: String,
    /// Free-form profile data, as JSON text.
    pub profile: String,
}

/// What an account shows of itself: no password fields.
#[derive(Clone, Debug)]
pub struct PublicUser {
    pub username: String,
    pub email: String,
    pub profile: String,
}

/// Who a token belongs to.
#[derive(Clone, Debug)]
pub struct UserInfo {
    pub username: String,
    pub email: String,
    pub uid: u32,
}

/// The content of a `UserStorage`.
pub ghost struct UserRecord {
    pub username: Seq<char>,
    pub email: Seq<char>,
    pub password_hash: Seq<char>,
    pub password_salt: Seq<char>,
    pub profile: Seq<char>,
}

impl View for UserStorage {
    type V = UserRecord;

    open spec fn view(&self) -> UserRecord {
        UserRecord {
            username: self.username@,
            email: self.email@,
            password_hash: self.password_hash@,
            password_salt: self.password_salt@,
            profile: self.profile@,
        }
    }
}

impl UserStorage {
    /// A field-by-field copy.
    pub fn copy(&self) -> (r: Self)
        ensures
            r@ == self@,
    {
        UserStorage {
            username: self.username.clone(),
            email: self.email.clone(),
            password_hash: self.password_hash.clone(),
            password_salt: self.password_salt.clone(),
            profile: self.profile.clone(),
        }
    }
}

/// The whole state of the store.
pub ghost struct AuthView {
    /// Accounts by uid.
    pub users: Map<u32, UserRecord>,
    /// The uids in the order their accounts were added.
    pub order: Seq<u32>,
    /// Username index.
    pub usernames: Map<Seq<char>, u32>,
    /// Email index.
    pub emails: Map<Seq<char>, u32>,
    /// Bearer tokens.
    pub tokens: Map<Seq<char>, TokenGrant>,
    /// The largest uid handed out so far.
    pub max_uid: u32,
}

/// The indices agree with the accounts: each account is found under its
/// username and its email, each index entry names an account that carries
/// that name, no uid exceeds the counter, and every token names an account.
pub open spec fn consistent(v: AuthView) -> bool {
    &&& forall|u: u32| #[trigger]
        v.users.contains_key(u) ==> {
            &&& v.usernames.contains_key(v.users[u].username)
            &&& v.usernames[v.users[u].username] == u
            &&& v.emails.contains_key(v.users[u].email)
            &&& v.emails[v.users[u].email] == u
            &&& u <= v.max_uid
            &&& v.order.contains(u)
        }
    &&& forall|n: Seq<char>| #[trigger]
        v.usernames.contains_key(n) ==> v.users.contains_key(v.usernames[n])
            && v.users[v.usernames[n]].username == n
    &&& forall|e: Seq<char>| #[trigger]
        v.emails.contains_key(e) ==> v.users.contains_key(v.emails[e]) && v.users[v.emails[e]].email
            == e
    &&& forall|t: Seq<char>| #[trigger]
        v.tokens.contains_key(t) ==> v.users.contains_key(v.tokens[t].uid)
    &&& v.order.no_duplicates()
    &&& forall|i: int| 0 <= i < v.order.len() ==> v.users.contains_key(#[trigger] v.order[i])
}

/// When a token minted at `now` stops being valid.
pub open spec fn token_expiry(now: u64) -> u64 {
    if now as int + TOKEN_LIFETIME as int <= u64::MAX as int {
        (now + TOKEN_LIFETIME) as u64
    } else {
        u64::MAX
    }
}

/// `password` is the one stored for `uid`.
pub open spec fn password_matches(v: AuthView, uid: u32, password: Seq<char>) -> bool {
    v.users.contains_key(uid) && aes_decrypt_of(v.users[uid].password_hash, v.users[uid].password_salt)
        == Some(password)
}

/// The state with `token` bound to `uid` from `now` on.
pub open spec fn with_token(v: AuthView, token: Seq<char>, uid: u32, now: u64) -> AuthView {
    AuthView { tokens: v.tokens.insert(token, TokenGrant { uid, expires: token_expiry(now) }), ..v }
}

/// The state with account `rec` added under `uid`.
pub open spec fn with_account(v: AuthView, uid: u32, rec: UserRecord) -> AuthView {
    AuthView {
        users: v.users.insert(uid, rec),
        order: v.order.push(uid),
        usernames: v.usernames.insert(rec.username, uid),
        emails: v.emails.insert(rec.email, uid),
        ..v
    }
}

/// Why `register` refuses `username` and `email`, if it does.
pub open spec fn register_refusal(v: AuthView, username: Seq<char>, email: Seq<char>) -> Option<
    FopError,
> {
    if !username_well_formed(username) || v.usernames.contains_key(username) {
        Some(FopError::UserNameNotValid)
    } else if !email_well_formed(email) || v.emails.contains_key(email) {
        Some(FopError::EmailNotValid)
    } else {
        None
    }
}

/// The state after registering a new account: it gets the next uid and an
/// empty profile.
pub open spec fn after_register(
    v: AuthView,
    username: Seq<char>,
    email: Seq<char>,
    hash: Seq<char>,
    salt: Seq<char>,
) -> AuthView {
    let uid = (v.max_uid + 1) as u32;
    with_account(
        AuthView { max_uid: uid, ..v },
        uid,
        UserRecord {
            username,
            email,
            password_hash: hash,
            password_salt: salt,
            profile: "{}"@,
        },
    )
}

/// What `uid_from_username_or_email_or_uid` finds for `s`: a number is taken
/// as a uid, else an email, else a username.
pub open spec fn identifier_uid(v: AuthView, s: Seq<char>) -> Option<u32> {
    if parses_unsigned(s, u32::MAX as nat) {
        Some(decimal_value(unsigned_digits(s)) as u32)
    } else if v.emails.contains_key(s) {
        Some(v.emails[s])
    } else if v.usernames.contains_key(s) {
        Some(v.usernames[s])
    } else {
        None
    }
}

/// The state with the account `uid` replaced by `rec`, its index entries
/// moved to the new username and email.
pub open spec fn with_record(v: AuthView, uid: u32, rec: UserRecord) -> AuthView {
    AuthView {
        users: v.users.insert(uid, rec),
        usernames: v.usernames.remove(v.users[uid].username).insert(rec.username, uid),
        emails: v.emails.remove(v.users[uid].email).insert(rec.email, uid),
        ..v
    }
}

/// The state with the password of account `uid` stored as `hash`.
pub open spec fn with_password_hash(v: AuthView, uid: u32, hash: Seq<char>) -> AuthView {
    with_record(v, uid, UserRecord { password_hash: hash, ..v.users[uid] })
}

/// A store with nothing in it.
pub open spec fn empty_view() -> AuthView {
    AuthView {
        users: Map::empty(),
        order: Seq::empty(),
        usernames: Map::empty(),
        emails: Map::empty(),
        tokens: Map::empty(),
        max_uid: 0,
    }
}

/// The store built from `recs` in order. A record whose uid, username or
/// email is already taken is passed over; every uid still counts towards
/// the counter, so none is handed out again.
pub open spec fn loaded(recs: Seq<(u32, UserRecord)>) -> AuthView
    decreases recs.len(),
{
    if recs.len() == 0 {
        empty_view()
    } else {
        let v = loaded(recs.drop_last());
        let uid = recs.last().0;
        let rec = recs.last().1;
        let v2 = AuthView { max_uid: if uid > v.max_uid { uid } else { v.max_uid }, ..v };
        if v.users.contains_key(uid) || v.usernames.contains_key(rec.username)
            || v.emails.contains_key(rec.email) {
            v2
        } else {
            with_account(v2, uid, rec)
        }
    }
}

/// The contents of a list of stored accounts.
pub open spec fn records_view(recs: Seq<(u32, UserStorage)>) -> Seq<(u32, UserRecord)> {
    recs.map_values(|p: (u32, UserStorage)| (p.0, p.1@))
}

/// Raising the counter keeps a consistent state consistent.
proof fn lemma_raise_max(v: AuthView, m: u32)
    requires
        consistent(v),
        v.max_uid <= m,
    ensures
        consistent(AuthView { max_uid: m, ..v }),
{
    let w = AuthView { max_uid: m, ..v };
    assert forall|u: u32| #[trigger] w.users.contains_key(u) implies u <= w.max_uid by {
        assert(v.users.contains_key(u));
    }
}

/// Whether a decryption result is exactly `password`.
pub fn password_in(decrypted: Option<String>, password: &str) -> (r: bool)
    ensures
        r == (decrypted matches Some(p) && p@ == password@),
{
    match decrypted {
        Some(plain) => plain == String::from_str(password),
        None => false,
    }
}

/// The credential store: accounts, their username and email indices, and
/// the bearer tokens issued for them.
pub struct AuthManager {
    users: HashMap<u32, UserStorage>,
    order: Vec<u32>,
    username_map: StrMap<u32>,
    email_map: StrMap<u32>,
    token_list: TokenList,
    max_uid: u32,
}

impl View for AuthManager {
    type V = AuthView;

    closed spec fn view(&self) -> AuthView {
        AuthView {
            users: Map::new(|u: u32| self.users@.contains_key(u), |u: u32| self.users@[u]@),
            order: self.order@,
            usernames: self.username_map@,
            emails: self.email_map@,
            tokens: self.token_list@,
            max_uid: self.max_uid,
        }
    }
}

impl AuthManager {
    pub closed spec fn wf(&self) -> bool {
        &&& self.username_map.wf()
        &&& self.email_map.wf()
        &&& self.token_list.wf()
        &&& consistent(self@)
    }

    /// A well-formed store is in a consistent state, and lists each of its
    /// accounts exactly once in `order`.
    pub proof fn lemma_consistent(&self)
        requires
            self.wf(),
        ensures
            consistent(self@),
            self@.order.len() == self@.users.len(),
    {
        let v = self@;
        assert(v.order.to_set() =~= v.users.dom()) by {
            assert forall|u: u32| v.users.dom().contains(u) implies v.order.to_set().contains(u) by {
                assert(v.users.contains_key(u));
            }
            assert forall|u: u32| v.order.to_set().contains(u) implies v.users.dom().contains(u) by {
                let i = choose|i: int| 0 <= i < v.order.len() && v.order[i] == u;
                assert(v.users.contains_key(v.order[i]));
            }
        }
        v.order.unique_seq_to_set();
    }

    /// A store with no accounts and no tokens.
    pub fn empty() -> (r: Self)
        ensures
            r.wf(),
            r@.users == Map::<u32, UserRecord>::empty(),
            r@.order == Seq::<u32>::empty(),
            r@.usernames == Map::<Seq<char>, u32>::empty(),
            r@.emails == Map::<Seq<char>, u32>::empty(),
            r@.tokens == Map::<Seq<char>, TokenGrant>::empty(),
            r@.max_uid == 0,
    {
        let r = AuthManager {
            users: HashMap::new(),
            order: Vec::new(),
            username_map: StrMap::new(),
            email_map: StrMap::new(),
            token_list: TokenList::new(),
            max_uid: 0,
        };
        assert(r@.users =~= Map::<u32, UserRecord>::empty());
        r
    }

    /// Whether `password` is the password of account `uid`.
    pub fn check_password(&self, uid: u32, password: &str) -> (r: bool)
        requires
            self.wf(),
        ensures
            r == password_matches(self@, uid, password@),
    {
        match self.users.get(&uid) {
            Some(user) => {
                assert(self@.users[uid] == user@);
                password_in(aes_decrypt(user.password_hash.as_str(), user.password_salt.as_str()), password)
            },
            None => false,
        }
    }

    /// The uid registered under `email`.
    pub fn get_uid_by_email(&self, email: &str) -> (r: Option<u32>)
        requires
            self.wf(),
        ensures
            r == (if self@.emails.contains_key(email@) { Some(self@.emails[email@]) } else { None::<u32> }),
    {
        self.email_map.get(email)
    }

    /// The uid registered under `username`.
    pub fn get_uid_by_username(&self, username: &str) -> (r: Option<u32>)
        requires
            self.wf(),
        ensures
            r == (if self@.usernames.contains_key(username@) {
                Some(self@.usernames[username@])
            } else {
                None::<u32>
            }),
    {
        self.username_map.get(username)
    }

    /// The uid that `token` stands for at time `now`.
    pub fn authenticate_user_at(&self, token: &str, now: u64) -> (r: Result<u32, FopError>)
        requires
            self.wf(),
        ensures
            match token_resolves(self@.tokens, token@, now) {
                Some(uid) => r == Ok::<u32, FopError>(uid),
                None => r == Err::<u32, FopError>(FopError::TokenInvalid),
            },
    {
        match self.token_list.authenticate_user_at(token, now) {
            Some(uid) => Ok(uid),
            None => Err(FopError::TokenInvalid),
        }
    }

    /// The uid that `token` stands for, by the system clock.
    pub fn authenticate_user(&self, token: &str) -> (r: Result<u32, FopError>)
        requires
            self.wf(),
        ensures
            exists|now: u64|
                match #[trigger] token_resolves(self@.tokens, token@, now) {
                    Some(uid) => r == Ok::<u32, FopError>(uid),
                    None => r == Err::<u32, FopError>(FopError::TokenInvalid),
                },
    {
        let now = unix_now();
        self.authenticate_user_at(token, now)
    }

    /// Issues `token` for `uid` at time `now` when `password` is right.
    ///
    /// A token that is already held is not issued again.
    pub fn login_user_at(&mut self, uid: u32, password: &str, token: String, now: u64) -> (r: Result<
        String,
        FopError,
    >)
        requires
            old(self).wf(),
        ensures
            final(self).wf(),
            !password_matches(old(self)@, uid, password@) ==> r == Err::<String, FopError>(
                FopError::PasswordMismatch,
            ),
            password_matches(old(self)@, uid, password@) && old(self)@.tokens.contains_key(token@) ==> (
            r matches Err(FopError::Other(_))),
            password_matches(old(self)@, uid, password@) && !old(self)@.tokens.contains_key(token@)
                ==> (r matches Ok(t) && t@ == token@),
            r is Ok ==> final(self)@ == with_token(old(self)@, token@, uid, now),
            r is Err ==> final(self)@ == old(self)@,
    {
        if !self.check_password(uid, password) {
            return Err(FopError::PasswordMismatch);
        }
        self.issue_token(uid, token, now)
    }

    /// Binds a fresh `token` to `uid`, an existing account.
    fn issue_token(&mut self, uid: u32, token: String, now: u64) -> (r: Result<String, FopError>)
        requires
            old(self).wf(),
            old(self)@.users.contains_key(uid),
        ensures
            final(self).wf(),
            old(self)@.tokens.contains_key(token@) ==> (r matches Err(FopError::Other(_))),
            !old(self)@.tokens.contains_key(token@) ==> (r matches Ok(t) && t@ == token@),
            r is Ok ==> final(self)@ == with_token(old(self)@, token@, uid, now),
            r is Err ==> final(self)@ == old(self)@,
    {
        if self.token_list.contains_token(token.as_str()) {
            return Err(FopError::Other(String::from_str("token collision")));
        }
        let expires = now.saturating_add(TOKEN_LIFETIME);
        let ghost tv = token@;
        self.token_list.add(token.clone(), uid, expires);
        proof {
            assert(self@ =~= with_token(old(self)@, tv, uid, now));
        }
        Ok(token)
    }

    /// Issues a new random token for `uid` when `password` is right.
    pub fn login_user(&mut self, uid: u32, password: &str) -> (r: Result<String, FopError>)
        requires
            old(self).wf(),
        ensures
            final(self).wf(),
            !password_matches(old(self)@, uid, password@) ==> r == Err::<String, FopError>(
                FopError::PasswordMismatch,
            ),
            password_matches(old(self)@, uid, password@) ==> (r is Ok || r matches Err(
                FopError::Other(_),
            )),
            r matches Ok(t) ==> !old(self)@.tokens.contains_key(t@) && exists|now: u64|
                final(self)@ == with_token(old(self)@, t@, uid, now),
            r matches Ok(t) ==> t@.len() == TOKEN_LENGTH && forall|i: int|
                0 <= i < t@.len() ==> is_ascii_alnum(#[trigger] t@[i]),
            r is Err ==> final(self)@ == old(self)@,
    {
        let token = random_alphanumeric(TOKEN_LENGTH);
        let now = unix_now();
        self.login_user_at(uid, password, token, now)
    }

    /// Revokes `token` when it is valid at `now`.
    pub fn logout_user_at(&mut self, token: &str, now: u64) -> (r: Result<(), FopError>)
        requires
            old(self).wf(),
        ensures
            final(self).wf(),
            token_resolves(old(self)@.tokens, token@, now) is Some ==> r is Ok && final(self)@
                == (AuthView { tokens: old(self)@.tokens.remove(token@), ..old(self)@ }),
            token_resolves(old(self)@.tokens, token@, now) is None ==> r == Err::<(), FopError>(
                FopError::TokenInvalid,
            ) && final(self)@ == old(self)@,
    {
        if self.token_list.authenticate_user_at(token, now).is_some() {
            self.token_list.remove(token);
            proof {
                assert(self@ =~= AuthView { tokens: old(self)@.tokens.remove(token@), ..old(self)@ });
            }
            Ok(())
        } else {
            Err(FopError::TokenInvalid)
        }
    }

    /// Revokes `token` when it is valid by the system clock.
    pub fn logout_user(&mut self, token: &str) -> (r: Result<(), FopError>)
        requires
            old(self).wf(),
        ensures
            final(self).wf(),
            r is Ok ==> final(self)@ == (AuthView {
                tokens: old(self)@.tokens.remove(token@),
                ..old(self)@
            }),
            r is Err ==> r == Err::<(), FopError>(FopError::TokenInvalid) && final(self)@ == old(
                self,
            )@,
            !old(self)@.tokens.contains_key(token@) ==> r is Err,
    {
        let now = unix_now();
        self.logout_user_at(token, now)
    }

    /// Issues `new_token` for the account that `old_token` stands for at
    /// `now`. The old token stays valid until its own expiry.
    pub fn refresh_token_at(&mut self, old_token: &str, new_token: String, now: u64) -> (r: Result<
        String,
        FopError,
    >)
        requires
            old(self).wf(),
        ensures
            final(self).wf(),
            token_resolves(old(self)@.tokens, old_token@, now) is None ==> r == Err::<
                String,
                FopError,
            >(FopError::TokenInvalid),
            token_resolves(old(self)@.tokens, old_token@, now) is Some && old(self)@.tokens.contains_key(
                new_token@,
            ) ==> (r matches Err(FopError::Other(_))),
            token_resolves(old(self)@.tokens, old_token@, now) is Some
                && !old(self)@.tokens.contains_key(new_token@) ==> (r matches Ok(t) && t@
                == new_token@),
            r is Ok ==> final(self)@ == with_token(
                old(self)@,
                new_token@,
                token_resolves(old(self)@.tokens, old_token@, now)->Some_0,
                now,
            ),
            r is Err ==> final(self)@ == old(self)@,
    {
        match self.token_list.authenticate_user_at(old_token, now) {
            Some(uid) => self.issue_token(uid, new_token, now),
            None => Err(FopError::TokenInvalid),
        }
    }

    /// Issues a new random token for the account that `old_token` stands
    /// for, by the system clock.
    pub fn refresh_token(&mut self, old_token: &str) -> (r: Result<String, FopError>)
        requires
            old(self).wf(),
        ensures
            final(self).wf(),
            !old(self)@.tokens.contains_key(old_token@) ==> r == Err::<String, FopError>(
                FopError::TokenInvalid,
            ),
            r matches Ok(t) ==> !old(self)@.tokens.contains_key(t@) && exists|now: u64|
                token_resolves(old(self)@.tokens, old_token@, now) is Some && final(self)@
                    == with_token(
                    old(self)@,
                    t@,
                    token_resolves(old(self)@.tokens, old_token@, now)->Some_0,
                    now,
                ),
            r matches Ok(t) ==> t@.len() == TOKEN_LENGTH && forall|i: int|
                0 <= i < t@.len() ==> is_ascii_alnum(#[trigger] t@[i]),
            r is Err ==> (r matches Err(FopError::TokenInvalid) || r matches Err(FopError::Other(_))),
            r is Err ==> final(self)@ == old(self)@,
    {
        let token = random_alphanumeric(TOKEN_LENGTH);
        let now = unix_now();
        self.refresh_token_at(old_token, token, now)
    }

    /// Whether `username` may be given to an account: well formed and free.
    pub fn validate_username(&self, username: &str) -> (r: bool)
        requires
            self.wf(),
        ensures
            r == (username_well_formed(username@) && !self@.usernames.contains_key(username@)),
    {
        username_format_ok(username) && !self.username_map.contains_key(username)
    }

    /// Whether `email` may be given to an account: well formed and free.
    pub fn validate_email(&self, email: &str) -> (r: bool)
        requires
            self.wf(),
        ensures
            r == (email_well_formed(email@) && !self@.emails.contains_key(email@)),
    {
        email_format_ok(email) && !self.email_map.contains_key(email)
    }

    /// Hands out the next uid, unless every uid is taken.
    pub fn new_uid(&mut self) -> (r: Option<u32>)
        requires
            old(self).wf(),
        ensures
            final(self).wf(),
            old(self)@.max_uid < u32::MAX ==> r == Some((old(self)@.max_uid + 1) as u32)
                && final(self)@ == (AuthView { max_uid: (old(self)@.max_uid + 1) as u32, ..old(self)@ }),
            old(self)@.max_uid == u32::MAX ==> r is None && final(self)@ == old(self)@,
            r matches Some(n) ==> forall|u: u32| #[trigger] old(self)@.users.contains_key(u) ==> u < n,
    {
        if self.max_uid < u32::MAX {
            self.max_uid = self.max_uid + 1;
            Some(self.max_uid)
        } else {
            None
        }
    }

    /// Adds an account whose uid, username and email are all unused.
    fn add_account(&mut self, uid: u32, user: UserStorage)
        requires
            old(self).wf(),
            !old(self)@.users.contains_key(uid),
            !old(self)@.usernames.contains_key(user.username@),
            !old(self)@.emails.contains_key(user.email@),
            uid <= old(self)@.max_uid,
        ensures
            final(self).wf(),
            final(self)@ == with_account(old(self)@, uid, user@),
    {
        let ghost v = self@;
        let ghost rec = user@;
        self.username_map.insert(user.username.clone(), uid);
        self.email_map.insert(user.email.clone(), uid);
        self.users.insert(uid, user);
        proof {
            assert(!v.order.contains(uid));
        }
        self.order.push(uid);
        proof {
            let w = with_account(v, uid, rec);
            assert(self@.users =~= w.users);
            assert(self@ == w);
            assert forall|u: u32| #[trigger] w.users.contains_key(u) implies w.order.contains(u) by {
                if u != uid {
                    assert(v.order.contains(u));
                    let i = choose|i: int| 0 <= i < v.order.len() && v.order[i] == u;
                    assert(w.order[i] == u);
                } else {
                    assert(w.order[v.order.len() as int] == u);
                }
            }
            assert forall|i: int| 0 <= i < w.order.len() implies w.users.contains_key(
                #[trigger] w.order[i],
            ) by {
                if i < v.order.len() {
                    assert(w.order[i] == v.order[i]);
                }
            }
            assert(w.order.no_duplicates()) by {
                assert forall|i: int, j: int|
                    0 <= i < w.order.len() && 0 <= j < w.order.len() && i != j implies w.order[i]
                    != w.order[j] by {
                    if i < v.order.len() && j < v.order.len() {
                        assert(v.order[i] != v.order[j]);
                    } else if i < v.order.len() {
                        assert(v.users.contains_key(v.order[i]));
                    } else if j < v.order.len() {
                        assert(v.users.contains_key(v.order[j]));
                    }
                }
            }
        }
    }

    /// Registers an account whose password is stored as `hash` under `salt`.
    pub fn register_user_with(&mut self, username: &str, email: &str, hash: String, salt: String) -> (r:
        Result<(), FopError>)
        requires
            old(self).wf(),
        ensures
            final(self).wf(),
            register_refusal(old(self)@, username@, email@) matches Some(e) ==> r == Err::<
                (),
                FopError,
            >(e),
            register_refusal(old(self)@, username@, email@) is None && old(self)@.max_uid
                == u32::MAX ==> (r matches Err(FopError::Other(_))),
            register_refusal(old(self)@, username@, email@) is None && old(self)@.max_uid
                < u32::MAX ==> r is Ok,
            r is Ok ==> final(self)@ == after_register(old(self)@, username@, email@, hash@, salt@),
            r is Err ==> final(self)@ == old(self)@,
    {
        if !self.validate_username(username) {
            return Err(FopError::UserNameNotValid);
        }
        if !self.validate_email(email) {
            return Err(FopError::EmailNotValid);
        }
        let uid = match self.new_uid() {
            Some(uid) => uid,
            None => return Err(FopError::Other(String::from_str("no uid left"))),
        };
        let user = UserStorage {
            username: String::from_str(username),
            email: String::from_str(email),
            password_hash: hash,
            password_salt: salt,
            profile: String::from_str("{}"),
        };
        self.add_account(uid, user);
        Ok(())
    }

    /// Registers an account with a fresh random salt; the password is stored
    /// encrypted under it.
    pub fn register_user(&mut self, username: &str, email: &str, password: &str) -> (r: Result<
        (),
        FopError,
    >)
        requires
            old(self).wf(),
        ensures
            final(self).wf(),
            register_refusal(old(self)@, username@, email@) matches Some(e) ==> r == Err::<
                (),
                FopError,
            >(e),
            register_refusal(old(self)@, username@, email@) is None && old(self)@.max_uid
                == u32::MAX ==> (r matches Err(FopError::Other(_))),
            register_refusal(old(self)@, username@, email@) is None && old(self)@.max_uid
                < u32::MAX ==> (r is Ok || r matches Err(FopError::Other(_))),
            r is Ok ==> exists|hash: Seq<char>, salt: Seq<char>|
                aes_decrypt_of(hash, salt) == Some(password@) && #[trigger] after_register(
                    old(self)@,
                    username@,
                    email@,
                    hash,
                    salt,
                ) == final(self)@,
            r is Err ==> final(self)@ == old(self)@,
    {
        if !self.validate_username(username) {
            return Err(FopError::UserNameNotValid);
        }
        if !self.validate_email(email) {
            return Err(FopError::EmailNotValid);
        }
        let salt = random_alphanumeric(SALT_LENGTH);
        match aes_encrypt(password, salt.as_str()) {
            Some(hash) => {
                let ghost hv = hash@;
                let ghost sv = salt@;
                let r = self.register_user_with(username, email, hash, salt);
                assert(r is Ok ==> after_register(old(self)@, username@, email@, hv, sv)
                    == self@);
                r
            },
            None => Err(FopError::Other(String::from_str("password encryption failed"))),
        }
    }

    /// The uid named by `string`: a decimal number is taken as a uid itself,
    /// otherwise an email and then a username are looked up.
    pub fn uid_from_username_or_email_or_uid(&self, string: String) -> (r: Result<u32, FopError>)
        requires
            self.wf(),
        ensures
            match identifier_uid(self@, string@) {
                Some(uid) => r == Ok::<u32, FopError>(uid),
                None => r == Err::<u32, FopError>(FopError::UserNotFound),
            },
    {
        if let Some(uid) = parse_u32(string.as_str()) {
            return Ok(uid);
        }
        if let Some(uid) = self.get_uid_by_email(string.as_str()) {
            return Ok(uid);
        }
        if let Some(uid) = self.get_uid_by_username(string.as_str()) {
            return Ok(uid);
        }
        Err(FopError::UserNotFound)
    }

    /// Replaces the account `uid` by `user`, whose username and email are
    /// each either the account's own or unused.
    fn replace_account(&mut self, uid: u32, user: UserStorage)
        requires
            old(self).wf(),
            old(self)@.users.contains_key(uid),
            user.username@ == old(self)@.users[uid].username || !old(self)@.usernames.contains_key(
                user.username@,
            ),
            user.email@ == old(self)@.users[uid].email || !old(self)@.emails.contains_key(user.email@),
        ensures
            final(self).wf(),
            final(self)@ == with_record(old(self)@, uid, user@),
    {
        let ghost v = self@;
        let ghost rec = user@;
        let old_user = self.users.get(&uid).unwrap();
        assert(old_user@ == v.users[uid]);
        let old_name = old_user.username.clone();
        let old_email = old_user.email.clone();
        let _ = self.username_map.remove(old_name.as_str());
        self.username_map.insert(user.username.clone(), uid);
        let _ = self.email_map.remove(old_email.as_str());
        self.email_map.insert(user.email.clone(), uid);
        self.users.insert(uid, user);
        proof {
            let w = with_record(v, uid, rec);
            assert(self@.users =~= w.users);
            assert(self@.usernames =~= w.usernames);
            assert(self@.emails =~= w.emails);
            assert(self@ == w);
            assert forall|u: u32| #[trigger] w.users.contains_key(u) implies {
                &&& w.usernames.contains_key(w.users[u].username)
                &&& w.usernames[w.users[u].username] == u
                &&& w.emails.contains_key(w.users[u].email)
                &&& w.emails[w.users[u].email] == u
                &&& u <= w.max_uid
                &&& w.order.contains(u)
            } by {
                if u != uid {
                    assert(v.users.contains_key(u));
                    assert(v.usernames[v.users[u].username] == u);
                    assert(v.emails[v.users[u].email] == u);
                }
            }
            assert forall|n: Seq<char>| #[trigger] w.usernames.contains_key(n) implies w.users.contains_key(
                w.usernames[n],
            ) && w.users[w.usernames[n]].username == n by {
                if n != rec.username {
                    assert(v.usernames.contains_key(n));
                }
            }
            assert forall|e: Seq<char>| #[trigger] w.emails.contains_key(e) implies w.users.contains_key(
                w.emails[e],
            ) && w.users[w.emails[e]].email == e by {
                if e != rec.email {
                    assert(v.emails.contains_key(e));
                }
            }
        }
    }

    /// Gives the account that `token` stands for at `now` the username
    /// `new_username`.
    pub fn change_username_at(&mut self, token: &str, new_username: &str, now: u64) -> (r: Result<
        (),
        FopError,
    >)
        requires
            old(self).wf(),
        ensures
            final(self).wf(),
            match token_resolves(old(self)@.tokens, token@, now) {
                None => r == Err::<(), FopError>(FopError::TokenInvalid),
                Some(uid) => if !username_well_formed(new_username@)
                    || old(self)@.usernames.contains_key(new_username@) {
                    r == Err::<(), FopError>(FopError::UserNameNotValid)
                } else {
                    r is Ok && final(self)@ == with_record(
                        old(self)@,
                        uid,
                        UserRecord { username: new_username@, ..old(self)@.users[uid] },
                    )
                },
            },
            r is Err ==> final(self)@ == old(self)@,
    {
        let uid = match self.token_list.authenticate_user_at(token, now) {
            Some(uid) => uid,
            None => return Err(FopError::TokenInvalid),
        };
        if !self.validate_username(new_username) {
            return Err(FopError::UserNameNotValid);
        }
        let user = match self.users.get(&uid) {
            Some(user) => user,
            None => return Err(FopError::UserNotFound),
        };
        let mut updated = user.copy();
        updated.username = String::from_str(new_username);
        self.replace_account(uid, updated);
        Ok(())
    }

    /// `change_username_at` by the system clock.
    pub fn change_username(&mut self, token: &str, new_username: &str) -> (r: Result<(), FopError>)
        requires
            old(self).wf(),
        ensures
            final(self).wf(),
            !old(self)@.tokens.contains_key(token@) ==> r == Err::<(), FopError>(
                FopError::TokenInvalid,
            ),
            r is Ok ==> exists|now: u64| #[trigger]
                token_resolves(old(self)@.tokens, token@, now) is Some && final(self)@ == with_record(
                    old(self)@,
                    token_resolves(old(self)@.tokens, token@, now)->Some_0,
                    UserRecord {
                        username: new_username@,
                        ..old(self)@.users[token_resolves(old(self)@.tokens, token@, now)->Some_0]
                    },
                ),
            r is Err ==> final(self)@ == old(self)@,
    {
        let now = unix_now();
        self.change_username_at(token, new_username, now)
    }

    /// Gives the account that `token` stands for at `now` the email
    /// `new_email`.
    pub fn change_email_at(&mut self, token: &str, new_email: &str, now: u64) -> (r: Result<
        (),
        FopError,
    >)
        requires
            old(self).wf(),
        ensures
            final(self).wf(),
            match token_resolves(old(self)@.tokens, token@, now) {
                None => r == Err::<(), FopError>(FopError::TokenInvalid),
                Some(uid) => if !email_well_formed(new_email@) || old(self)@.emails.contains_key(
                    new_email@,
                ) {
                    r == Err::<(), FopError>(FopError::EmailNotValid)
                } else {
                    r is Ok && final(self)@ == with_record(
                        old(self)@,
                        uid,
                        UserRecord { email: new_email@, ..old(self)@.users[uid] },
                    )
                },
            },
            r is Err ==> final(self)@ == old(self)@,
    {
        let uid = match self.token_list.authenticate_user_at(token, now) {
            Some(uid) => uid,
            None => return Err(FopError::TokenInvalid),
        };
        if !self.validate_email(new_email) {
            return Err(FopError::EmailNotValid);
        }
        let user = match self.users.get(&uid) {
            Some(user) => user,
            None => return Err(FopError::UserNotFound),
        };
        let mut updated = user.copy();
        updated.email = String::from_str(new_email);
        self.replace_account(uid, updated);
        Ok(())
    }

    /// `change_email_at` by the system clock.
    pub fn change_email(&mut self, token: &str, new_email: &str) -> (r: Result<(), FopError>)
        requires
            old(self).wf(),
        ensures
            final(self).wf(),
            !old(self)@.tokens.contains_key(token@) ==> r == Err::<(), FopError>(
                FopError::TokenInvalid,
            ),
            r is Ok ==> exists|now: u64| #[trigger]
                token_resolves(old(self)@.tokens, token@, now) is Some && final(self)@ == with_record(
                    old(self)@,
                    token_resolves(old(self)@.tokens, token@, now)->Some_0,
                    UserRecord {
                        email: new_email@,
                        ..old(self)@.users[token_resolves(old(self)@.tokens, token@, now)->Some_0]
                    },
                ),
            r is Err ==> final(self)@ == old(self)@,
    {
        let now = unix_now();
        self.change_email_at(token, new_email, now)
    }

    /// Stores `new_hash` as the password of the account that `token` stands
    /// for at `now`, provided `old_password` is its current password.
    pub fn change_password_with(
        &mut self,
        token: &str,
        old_password: &str,
        new_hash: String,
        now: u64,
    ) -> (r: Result<(), FopError>)
        requires
            old(self).wf(),
        ensures
            final(self).wf(),
            match token_resolves(old(self)@.tokens, token@, now) {
                None => r == Err::<(), FopError>(FopError::TokenInvalid),
                Some(uid) => if !password_matches(old(self)@, uid, old_password@) {
                    r == Err::<(), FopError>(FopError::PasswordMismatch)
                } else {
                    r is Ok && final(self)@ == with_record(
                        old(self)@,
                        uid,
                        UserRecord { password_hash: new_hash@, ..old(self)@.users[uid] },
                    )
                },
            },
            r is Err ==> final(self)@ == old(self)@,
    {
        let uid = match self.token_list.authenticate_user_at(token, now) {
            Some(uid) => uid,
            None => return Err(FopError::TokenInvalid),
        };
        if !self.check_password(uid, old_password) {
            return Err(FopError::PasswordMismatch);
        }
        let user = match self.users.get(&uid) {
            Some(user) => user,
            None => return Err(FopError::UserNotFound),
        };
        let mut updated = user.copy();
        updated.password_hash = new_hash;
        self.replace_account(uid, updated);
        Ok(())
    }

    /// Changes the password of the account that `token` stands for at `now`
    /// from `old_password` to `new_password`, encrypted under the account's
    /// existing salt.
    pub fn change_password_at(
        &mut self,
        token: &str,
        old_password: &str,
        new_password: &str,
        now: u64,
    ) -> (r: Result<(), FopError>)
        requires
            old(self).wf(),
        ensures
            final(self).wf(),
            token_resolves(old(self)@.tokens, token@, now) is None ==> r == Err::<(), FopError>(
                FopError::TokenInvalid,
            ),
            token_resolves(old(self)@.tokens, token@, now) matches Some(uid) && !password_matches(
                old(self)@,
                uid,
                old_password@,
            ) ==> r == Err::<(), FopError>(FopError::PasswordMismatch),
            token_resolves(old(self)@.tokens, token@, now) is Some && password_matches(
                old(self)@,
                token_resolves(old(self)@.tokens, token@, now)->Some_0,
                old_password@,
            ) ==> (r is Ok || r matches Err(FopError::Other(_))),
            r is Ok ==> token_resolves(old(self)@.tokens, token@, now) is Some && exists|
                hash: Seq<char>,
            |
                aes_decrypt_of(
                    hash,
                    old(self)@.users[token_resolves(old(self)@.tokens, token@, now)->Some_0].password_salt,
                ) == Some(new_password@) && final(self)@ == #[trigger] with_password_hash(
                    old(self)@,
                    token_resolves(old(self)@.tokens, token@, now)->Some_0,
                    hash,
                ),
            r is Err ==> final(self)@ == old(self)@,
    {
        let uid = match self.token_list.authenticate_user_at(token, now) {
            Some(uid) => uid,
            None => return Err(FopError::TokenInvalid),
        };
        if !self.check_password(uid, old_password) {
            return Err(FopError::PasswordMismatch);
        }
        let salt = match self.users.get(&uid) {
            Some(user) => user.password_salt.clone(),
            None => return Err(FopError::UserNotFound),
        };
        match aes_encrypt(new_password, salt.as_str()) {
            Some(hash) => {
                let ghost hv = hash@;
                let r = self.change_password_with(token, old_password, hash, now);
                assert(r is Ok ==> final(self)@ == with_password_hash(old(self)@, uid, hv));
                r
            },
            None => Err(FopError::Other(String::from_str("password encryption failed"))),
        }
    }

    /// `change_password_at` by the system clock.
    pub fn change_password(&mut self, token: &str, old_password: &str, new_password: &str) -> (r:
        Result<(), FopError>)
        requires
            old(self).wf(),
        ensures
            final(self).wf(),
            !old(self)@.tokens.contains_key(token@) ==> r == Err::<(), FopError>(
                FopError::TokenInvalid,
            ),
            r is Ok ==> exists|now: u64, hash: Seq<char>|
                #[trigger] token_resolves(old(self)@.tokens, token@, now) is Some && password_matches(
                    old(self)@,
                    token_resolves(old(self)@.tokens, token@, now)->Some_0,
                    old_password@,
                ) && aes_decrypt_of(
                    hash,
                    old(self)@.users[token_resolves(old(self)@.tokens, token@, now)->Some_0].password_salt,
                ) == Some(new_password@) && final(self)@ == #[trigger] with_password_hash(
                    old(self)@,
                    token_resolves(old(self)@.tokens, token@, now)->Some_0,
                    hash,
                ),
            r is Err ==> (r matches Err(FopError::TokenInvalid) || r matches Err(
                FopError::PasswordMismatch,
            ) || r matches Err(FopError::Other(_))),
            r is Err ==> final(self)@ == old(self)@,
    {
        let now = unix_now();
        self.change_password_at(token, old_password, new_password, now)
    }

    /// Replaces the whole account that `token` stands for at `now` by `user`,
    /// whose username and email must both be well formed and unused.
    pub fn edit_user_at(&mut self, token: String, user: UserStorage, now: u64) -> (r: Result<
        (),
        FopError,
    >)
        requires
            old(self).wf(),
        ensures
            final(self).wf(),
            match token_resolves(old(self)@.tokens, token@, now) {
                None => r == Err::<(), FopError>(FopError::TokenInvalid),
                Some(uid) => if !username_well_formed(user.username@)
                    || old(self)@.usernames.contains_key(user.username@) {
                    r == Err::<(), FopError>(FopError::UserNameNotValid)
                } else if !email_well_formed(user.email@) || old(self)@.emails.contains_key(
                    user.email@,
                ) {
                    r == Err::<(), FopError>(FopError::EmailNotValid)
                } else {
                    r is Ok && final(self)@ == with_record(old(self)@, uid, user@)
                },
            },
            r is Err ==> final(self)@ == old(self)@,
    {
        let uid = match self.token_list.authenticate_user_at(token.as_str(), now) {
            Some(uid) => uid,
            None => return Err(FopError::TokenInvalid),
        };
        if !self.validate_username(user.username.as_str()) {
            return Err(FopError::UserNameNotValid);
        }
        if !self.validate_email(user.email.as_str()) {
            return Err(FopError::EmailNotValid);
        }
        if !self.users.contains_key(&uid) {
            return Err(FopError::UserTooBig);
        }
        self.replace_account(uid, user);
        Ok(())
    }

    /// `edit_user_at` by the system clock.
    pub fn edit_user(&mut self, token: String, user: UserStorage) -> (r: Result<(), FopError>)
        requires
            old(self).wf(),
        ensures
            final(self).wf(),
            !old(self)@.tokens.contains_key(token@) ==> r == Err::<(), FopError>(
                FopError::TokenInvalid,
            ),
            r is Ok ==> exists|now: u64| #[trigger]
                token_resolves(old(self)@.tokens, token@, now) is Some && final(self)@ == with_record(
                    old(self)@,
                    token_resolves(old(self)@.tokens, token@, now)->Some_0,
                    user@,
                ),
            r is Err ==> final(self)@ == old(self)@,
    {
        let now = unix_now();
        self.edit_user_at(token, user, now)
    }

    /// The store holding `records`, in order, with no tokens. A record whose
    /// uid, username or email is already taken by an earlier one is passed
    /// over.
    pub fn new(records: Vec<(u32, UserStorage)>) -> (r: Self)
        ensures
            r.wf(),
            r@ == loaded(records_view(records@)),
    {
        let ghost rv = records_view(records@);
        let mut store = AuthManager::empty();
        assert(store@ == loaded(rv.take(0)));
        let mut i: usize = 0;
        while i < records.len()
            invariant
                store.wf(),
                rv == records_view(records@),
                0 <= i <= records@.len(),
                store@ == loaded(rv.take(i as int)),
            decreases records@.len() - i,
        {
            let uid = records[i].0;
            let user = &records[i].1;
            proof {
                assert(rv.take(i + 1).drop_last() =~= rv.take(i as int));
                assert(rv.take(i + 1).last() == (uid, user@));
            }
            if uid > store.max_uid {
                let ghost before = store@;
                store.max_uid = uid;
                proof {
                    lemma_raise_max(before, uid);
                    assert(store@ == AuthView { max_uid: uid, ..before });
                }
            }
            if !store.users.contains_key(&uid) && !store.username_map.contains_key(user.username.as_str())
                && !store.email_map.contains_key(user.email.as_str()) {
                store.add_account(uid, user.copy());
            }
            i = i + 1;
        }
        assert(rv.take(records@.len() as int) =~= rv);
        store
    }

    /// Every account with its uid, in the order the accounts were added.
    pub fn records(&self) -> (r: Vec<(u32, UserStorage)>)
        requires
            self.wf(),
        ensures
            r@.len() == self@.order.len(),
            r@.len() == self@.users.len(),
            forall|i: int|
                0 <= i < r@.len() ==> (#[trigger] r@[i]).0 == self@.order[i] && r@[i].1@
                    == self@.users[self@.order[i]],
    {
        proof {
            self.lemma_consistent();
        }
        let mut out: Vec<(u32, UserStorage)> = Vec::new();
        let mut i: usize = 0;
        while i < self.order.len()
            invariant
                self.wf(),
                0 <= i <= self@.order.len(),
                out@.len() == i,
                forall|j: int|
                    0 <= j < i ==> (#[trigger] out@[j]).0 == self@.order[j] && out@[j].1@
                        == self@.users[self@.order[j]],
            decreases self@.order.len() - i,
        {
            let uid = self.order[i];
            proof {
                assert(self@.users.contains_key(self@.order[i as int]));
            }
            let user = self.users.get(&uid).unwrap();
            out.push((uid, user.copy()));
            i = i + 1;
        }
        out
    }

    /// Every account without its password fields, in the order the accounts
    /// were added.
    pub fn list_users(&self) -> (r: Vec<PublicUser>)
        requires
            self.wf(),
        ensures
            r@.len() == self@.order.len(),
            r@.len() == self@.users.len(),
            forall|i: int|
                0 <= i < r@.len() ==> {
                    &&& (#[trigger] r@[i]).username@ == self@.users[self@.order[i]].username
                    &&& r@[i].email@ == self@.users[self@.order[i]].email
                    &&& r@[i].profile@ == self@.users[self@.order[i]].profile
                },
    {
        proof {
            self.lemma_consistent();
        }
        let mut out: Vec<PublicUser> = Vec::new();
        let mut i: usize = 0;
        while i < self.order.len()
            invariant
                self.wf(),
                0 <= i <= self@.order.len(),
                out@.len() == i,
                forall|j: int|
                    0 <= j < i ==> {
                        &&& (#[trigger] out@[j]).username@ == self@.users[self@.order[j]].username
                        &&& out@[j].email@ == self@.users[self@.order[j]].email
                        &&& out@[j].profile@ == self@.users[self@.order[j]].profile
                    },
            decreases self@.order.len() - i,
        {
            let uid = self.order[i];
            proof {
                assert(self@.users.contains_key(self@.order[i as int]));
            }
            let user = self.users.get(&uid).unwrap();
            out.push(
                PublicUser {
                    username: user.username.clone(),
                    email: user.email.clone(),
                    profile: user.profile.clone(),
                },
            );
            i = i + 1;
        }
        out
    }

    /// The account that `token` stands for at `now`.
    pub fn get_userstorage_instance_at(&self, token: String, now: u64) -> (r: Result<
        UserStorage,
        FopError,
    >)
        requires
            self.wf(),
        ensures
            match token_resolves(self@.tokens, token@, now) {
                None => r == Err::<UserStorage, FopError>(FopError::TokenInvalid),
                Some(uid) => r matches Ok(u) && u@ == self@.users[uid],
            },
    {
        match self.token_list.authenticate_user_at(token.as_str(), now) {
            Some(uid) => match self.users.get(&uid) {
                Some(user) => Ok(user.copy()),
                None => Err(FopError::UserTooBig),
            },
            None => Err(FopError::TokenInvalid),
        }
    }

    /// `get_userstorage_instance_at` by the system clock.
    pub fn get_userstorage_instance(&self, token: String) -> (r: Result<UserStorage, FopError>)
        requires
            self.wf(),
        ensures
            !self@.tokens.contains_key(token@) ==> r == Err::<UserStorage, FopError>(
                FopError::TokenInvalid,
            ),
            r matches Ok(u) ==> self@.tokens.contains_key(token@) && u@
                == self@.users[self@.tokens[token@].uid],
            r is Err ==> r == Err::<UserStorage, FopError>(FopError::TokenInvalid),
    {
        let now = unix_now();
        self.get_userstorage_instance_at(token, now)
    }

    /// The profile of the account that `token` stands for at `now`.
    pub fn get_user_profile_at(&self, token: String, now: u64) -> (r: Result<String, FopError>)
        requires
            self.wf(),
        ensures
            match token_resolves(self@.tokens, token@, now) {
                None => r == Err::<String, FopError>(FopError::TokenInvalid),
                Some(uid) => r matches Ok(p) && p@ == self@.users[uid].profile,
            },
    {
        match self.token_list.authenticate_user_at(token.as_str(), now) {
            Some(uid) => match self.users.get(&uid) {
                Some(user) => Ok(user.profile.clone()),
                None => Err(FopError::UserTooBig),
            },
            None => Err(FopError::TokenInvalid),
        }
    }

    /// `get_user_profile_at` by the system clock.
    pub fn get_user_profile(&self, token: String) -> (r: Result<String, FopError>)
        requires
            self.wf(),
        ensures
            !self@.tokens.contains_key(token@) ==> r == Err::<String, FopError>(
                FopError::TokenInvalid,
            ),
            r matches Ok(p) ==> self@.tokens.contains_key(token@) && p@
                == self@.users[self@.tokens[token@].uid].profile,
            r is Err ==> r == Err::<String, FopError>(FopError::TokenInvalid),
    {
        let now = unix_now();
        self.get_user_profile_at(token, now)
    }

    /// Username, email and uid of the account that `token` stands for at
    /// `now`.
    pub fn get_user_info_at(&self, token: String, now: u64) -> (r: Result<UserInfo, FopError>)
        requires
            self.wf(),
        ensures
            match token_resolves(self@.tokens, token@, now) {
                None => r == Err::<UserInfo, FopError>(FopError::TokenInvalid),
                Some(uid) => r matches Ok(info) && info.uid == uid && info.username@
                    == self@.users[uid].username && info.email@ == self@.users[uid].email,
            },
    {
        match self.token_list.authenticate_user_at(token.as_str(), now) {
            Some(uid) => match self.users.get(&uid) {
                Some(user) => Ok(
                    UserInfo { username: user.username.clone(), email: user.email.clone(), uid },
                ),
                None => Err(FopError::UserTooBig),
            },
            None => Err(FopError::TokenInvalid),
        }
    }

    /// `get_user_info_at` by the system clock.
    pub fn get_user_info(&self, token: String) -> (r: Result<UserInfo, FopError>)
        requires
            self.wf(),
        ensures
            !self@.tokens.contains_key(token@) ==> r == Err::<UserInfo, FopError>(
                FopError::TokenInvalid,
            ),
            r matches Ok(info) ==> self@.tokens.contains_key(token@) && info.uid
                == self@.tokens[token@].uid && info.username@ == self@.users[info.uid].username
                && info.email@ == self@.users[info.uid].email,
            r is Err ==> r == Err::<UserInfo, FopError>(FopError::TokenInvalid),
    {
        let now = unix_now();
        self.get_user_info_at(token, now)
    }

    /// Drops the tokens that are no longer valid at `now`.
    pub fn cleanup_expired_tokens_at(&mut self, now: u64)
        requires
            old(self).wf(),
        ensures
            final(self).wf(),
            final(self)@ == (AuthView { tokens: crate::token::live_tokens(old(self)@.tokens, now), ..old(self)@ }),
    {
        self.token_list.cleanup_expired_at(now);
        proof {
            assert(self@ =~= AuthView { tokens: crate::token::live_tokens(old(self)@.tokens, now), ..old(self)@ });
        }
    }
}

} // verus!
