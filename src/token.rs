//! Confirmation tokens: the in-memory mapping from token to subscriber.
use crate::subscriber::SubscriberId;
use vstd::prelude::*;

verus! {

/// One confirmation token bound to the subscriber it confirms.
#[derive(Debug)]
pub struct TokenEntry {
    pub token: String,
    pub subscriber_id: SubscriberId,
}

/// The token store: each token resolves to at most one subscriber.
pub struct TokenStore {
    entries: Vec<TokenEntry>,
}

impl TokenStore {
    /// Does the stored entry at `i` hold token `t`?
    pub closed spec fn holds_at(&self, i: int, t: Seq<char>) -> bool {
        0 <= i < self.entries@.len() && self.entries@[i].token@ == t
    }

    pub closed spec fn wf(&self) -> bool {
        forall|i: int, j: int|
            0 <= i < j < self.entries@.len() ==> #[trigger] self.entries@[i].token@
                != #[trigger] self.entries@[j].token@
    }
}

impl View for TokenStore {
    type V = Map<Seq<char>, SubscriberId>;

    closed spec fn view(&self) -> Map<Seq<char>, SubscriberId> {
        Map::new(
            |t: Seq<char>| exists|i: int| self.holds_at(i, t),
            |t: Seq<char>| self.entries@[choose|i: int| self.holds_at(i, t)].subscriber_id,
        )
    }
}

impl TokenStore {
    pub fn new() -> (r: TokenStore)
        ensures
            r.wf(),
            r@ == Map::<Seq<char>, SubscriberId>::empty(),
    {
        let r = TokenStore { entries: Vec::new() };
        assert(r@ =~= Map::<Seq<char>, SubscriberId>::empty());
        r
    }

    /// The subscriber that `token` resolves to, if it is registered.
    pub fn resolve(&self, token: &str) -> (r: Option<SubscriberId>)
        requires
            self.wf(),
        ensures
            r == (if self@.contains_key(token@) {
                Some(self@[token@])
            } else {
                None
            }),
    {
        let wanted: String = token.to_owned();
        let mut i: usize = 0;
        while i < self.entries.len()
            invariant
                0 <= i <= self.entries.len(),
                wanted@ == token@,
                self.wf(),
                forall|k: int| 0 <= k < i ==> !#[trigger] self.holds_at(k, token@),
            decreases self.entries.len() - i,
        {
            if self.entries[i].token == wanted {
                proof {
                    let c = choose|k: int| self.holds_at(k, token@);
                    assert(self.holds_at(i as int, token@));
                    if c != i {
                        assert(self.entries@[c].token@ == self.entries@[i as int].token@);
                    }
                }
                return Some(self.entries[i].subscriber_id);
            }
            i += 1;
        }
        assert(!self@.contains_key(token@));
        None
    }

    /// Binds `token` to `id` unless the token is registered already; returns
    /// whether it was added.
    pub fn insert(&mut self, token: String, id: SubscriberId) -> (r: bool)
        requires
            old(self).wf(),
        ensures
            final(self).wf(),
            r == !old(self)@.contains_key(token@),
            r ==> final(self)@ == old(self)@.insert(token@, id),
            !r ==> final(self)@ == old(self)@,
    {
        match self.resolve(token.as_str()) {
            Some(_) => false,
            None => {
                let ghost t = token@;
                let ghost before = *self;
                self.entries.push(TokenEntry { token, subscriber_id: id });
                let ghost n = before.entries@.len() as int;
                assert forall|i: int| 0 <= i < n implies before.entries@[i].token@ != t by {
                    if before.entries@[i].token@ == t {
                        assert(before.holds_at(i, t));
                    }
                }
                assert(self.entries@[n].token@ == t);
                assert(forall|i: int| 0 <= i < n ==> self.entries@[i] == before.entries@[i]);
                assert forall|u: Seq<char>| #[trigger] self@.contains_key(u) == before@.insert(
                    t,
                    id,
                ).contains_key(u) by {
                    if exists|i: int| before.holds_at(i, u) {
                        let i = choose|i: int| before.holds_at(i, u);
                        assert(self.holds_at(i, u));
                    }
                    if u == t {
                        assert(self.holds_at(n, u));
                    }
                    if exists|i: int| self.holds_at(i, u) {
                        let i = choose|i: int| self.holds_at(i, u);
                        if i < n {
                            assert(before.holds_at(i, u));
                        }
                    }
                }
                assert forall|u: Seq<char>| #[trigger] self@.contains_key(u) implies self@[u]
                    == before@.insert(t, id)[u] by {
                    let c = choose|i: int| self.holds_at(i, u);
                    if u == t {
                        assert(self.holds_at(n, u));
                        if c != n {
                            assert(before.holds_at(c, u));
                        }
                    } else {
                        assert(c != n);
                        assert(before.holds_at(c, u));
                        let b = choose|i: int| before.holds_at(i, u);
                        if b != c {
                            assert(before.entries@[b].token@ == before.entries@[c].token@);
                        }
                    }
                }
                assert(self@ =~= before@.insert(t, id));
                true
            },
        }
    }
}

} // verus!
