use vstd::prelude::*;
use crate::bridge::unix_now;
use crate::strmap::StrMap;

verus! {

/// The user a bearer token stands for, and the second at which it stops
/// being valid.
#[derive(Clone, Copy, Debug, PartialEq, Eq)]
pub struct TokenGrant {
    pub uid: u32,
    pub expires: u64,
}

/// The uid that `t` resolves to at time `now`: only while `now` is before
/// the token's expiry.
pub open spec fn token_resolves(tokens: Map<Seq<char>, TokenGrant>, t: Seq<char>, now: u64) -> Option<
    u32,
> {
    if tokens.contains_key(t) && now < tokens[t].expires {
        Some(tokens[t].uid)
    } else {
        None
    }
}

/// The tokens that are still valid at `now`.
pub open spec fn live_tokens(tokens: Map<Seq<char>, TokenGrant>, now: u64) -> Map<
    Seq<char>,
    TokenGrant,
> {
    Map::new(|t: Seq<char>| tokens.contains_key(t) && now < tokens[t].expires, |t: Seq<char>| tokens[t])
}

/// Bearer tokens held in memory, each bound to a uid and an expiry.
pub struct TokenList(StrMap<TokenGrant>);

impl View for TokenList {
    type V = Map<Seq<char>, TokenGrant>;

    closed spec fn view(&self) -> Map<Seq<char>, TokenGrant> {
        self.0@
    }
}

impl TokenList {
    pub closed spec fn wf(&self) -> bool {
        self.0.wf()
    }

    pub fn new() -> (r: Self)
        ensures
            r.wf(),
            r@ == Map::<Seq<char>, TokenGrant>::empty(),
    {
        TokenList(StrMap::new())
    }

    /// Binds `token` to `uid` until `expires`.
    pub fn add(&mut self, token: String, uid: u32, expires: u64)
        requires
            old(self).wf(),
        ensures
            final(self).wf(),
            final(self)@ == old(self)@.insert(token@, TokenGrant { uid, expires }),
    {
        self.0.insert(token, TokenGrant { uid, expires });
    }

    /// Forgets `token`.
    pub fn remove(&mut self, token: &str)
        requires
            old(self).wf(),
        ensures
            final(self).wf(),
            final(self)@ == old(self)@.remove(token@),
    {
        let _ = self.0.remove(token);
    }

    /// Whether `token` is held, expired or not.
    pub fn contains_token(&self, token: &str) -> (r: bool)
        requires
            self.wf(),
        ensures
            r == self@.contains_key(token@),
    {
        self.0.contains_key(token)
    }

    /// The uid of `token` at time `now`.
    pub fn authenticate_user_at(&self, token: &str, now: u64) -> (r: Option<u32>)
        requires
            self.wf(),
        ensures
            r == token_resolves(self@, token@, now),
    {
        match self.0.get(token) {
            Some(g) => {
                if now < g.expires {
                    Some(g.uid)
                } else {
                    None
                }
            },
            None => None,
        }
    }

    /// The uid of `token` by the system clock.
    pub fn authenticate_user(&self, token: &str) -> (r: Option<u32>)
        requires
            self.wf(),
        ensures
            r is Some ==> self@.contains_key(token@) && r == Some(self@[token@].uid),
            !self@.contains_key(token@) ==> r is None,
    {
        let now = unix_now();
        self.authenticate_user_at(token, now)
    }

    /// Drops every token that is no longer valid at `now`.
    pub fn cleanup_expired_at(&mut self, now: u64)
        requires
            old(self).wf(),
        ensures
            final(self).wf(),
            final(self)@ == live_tokens(old(self)@, now),
    {
        let keep = |g: &TokenGrant| -> (b: bool)
            ensures
                b == (now < g.expires),
            { now < g.expires };
        self.0.retain(keep);
        proof {
            assert(self@ =~= live_tokens(old(self)@, now)) by {
                assert forall|t: Seq<char>| #[trigger]
                    live_tokens(old(self)@, now).contains_key(t) implies self@.contains_key(t) by {
                    if !self@.contains_key(t) {
                        assert(keep.ensures((&old(self)@[t],), false));
                    }
                }
            }
        }
    }

    /// Drops every token that is no longer valid by the system clock.
    pub fn cleanup_expired(&mut self)
        requires
            old(self).wf(),
        ensures
            final(self).wf(),
            exists|now: u64| final(self)@ == live_tokens(old(self)@, now),
    {
        let now = unix_now();
        self.cleanup_expired_at(now);
    }
}

} // verus!
