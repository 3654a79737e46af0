use vstd::prelude::*;

verus! {

/// A map from strings to copyable values, kept as two parallel vectors.
///
/// Its model is a `Map` from the keys' character sequences to values; no key
/// occurs twice. (vstd specifies std's `HashMap` only for keys such as
/// integers; with `String` keys nothing about its contents can be shown.)
pub struct StrMap<V> {
    keys: Vec<String>,
    vals: Vec<V>,
    model: Ghost<Map<Seq<char>, V>>,
}

impl<V> View for StrMap<V> {
    type V = Map<Seq<char>, V>;

    closed spec fn view(&self) -> Map<Seq<char>, V> {
        self.model@
    }
}

impl<V: Copy> StrMap<V> {
    /// The vectors agree with the model, and no key is stored twice.
    pub closed spec fn wf(&self) -> bool {
        &&& self.keys@.len() == self.vals@.len()
        &&& forall|i: int, j: int|
            0 <= i < j < self.keys@.len() ==> (#[trigger] self.keys@[i])@ != (#[trigger] self.keys@[j])@
        &&& forall|i: int|
            0 <= i < self.keys@.len() ==> {
                &&& self.model@.contains_key((#[trigger] self.keys@[i])@)
                &&& self.model@[self.keys@[i]@] == self.vals@[i]
            }
        &&& forall|k: Seq<char>|
            #[trigger] self.model@.contains_key(k) ==> exists|i: int|
                0 <= i < self.keys@.len() && (#[trigger] self.keys@[i])@ == k
    }

    pub fn new() -> (r: Self)
        ensures
            r.wf(),
            r@ == Map::<Seq<char>, V>::empty(),
    {
        StrMap { keys: Vec::new(), vals: Vec::new(), model: Ghost(Map::empty()) }
    }

    /// The number of entries.
    pub fn len(&self) -> (r: usize)
        requires
            self.wf(),
        ensures
            r == self@.len(),
    {
        proof {
            self.lemma_len();
        }
        self.keys.len()
    }

    proof fn lemma_len(&self)
        requires
            self.wf(),
        ensures
            self@.len() == self.keys@.len(),
            self@.dom().finite(),
        decreases self.keys@.len(),
    {
        let ks = Seq::new(self.keys@.len(), |i: int| self.keys@[i]@);
        assert(ks.no_duplicates()) by {
            assert forall|i: int, j: int| 0 <= i < ks.len() && 0 <= j < ks.len() && i != j implies ks[i]
                != ks[j] by {
                if i < j {
                    assert(self.keys@[i]@ != self.keys@[j]@);
                } else {
                    assert(self.keys@[j]@ != self.keys@[i]@);
                }
            }
        }
        assert(self@.dom() =~= ks.to_set()) by {
            assert forall|k: Seq<char>| self@.dom().contains(k) implies ks.to_set().contains(k) by {
                let i = choose|i: int| 0 <= i < self.keys@.len() && (#[trigger] self.keys@[i])@ == k;
                assert(ks[i] == k);
            }
            assert forall|k: Seq<char>| ks.to_set().contains(k) implies self@.dom().contains(k) by {
                let i = choose|i: int| 0 <= i < ks.len() && ks[i] == k;
                assert(self.model@.contains_key(self.keys@[i]@));
            }
        }
        ks.unique_seq_to_set();
    }

    /// The position of `k` in the key vector, if it is a key.
    fn find(&self, k: &str) -> (r: Option<usize>)
        requires
            self.wf(),
        ensures
            r is None <==> !self@.contains_key(k@),
            r matches Some(i) ==> i < self.keys@.len() && self.keys@[i as int]@ == k@,
    {
        let target = String::from_str(k);
        let mut i: usize = 0;
        while i < self.keys.len()
            invariant
                self.wf(),
                target@ == k@,
                0 <= i <= self.keys@.len(),
                forall|j: int| 0 <= j < i ==> (#[trigger] self.keys@[j])@ != k@,
            decreases self.keys@.len() - i,
        {
            if self.keys[i] == target {
                return Some(i);
            }
            i = i + 1;
        }
        proof {
            if self@.contains_key(k@) {
                let j = choose|j: int| 0 <= j < self.keys@.len() && (#[trigger] self.keys@[j])@ == k@;
                assert(self.keys@[j]@ != k@);
            }
        }
        None
    }

    /// The value stored under `k`.
    pub fn get(&self, k: &str) -> (r: Option<V>)
        requires
            self.wf(),
        ensures
            r == (if self@.contains_key(k@) { Some(self@[k@]) } else { None::<V> }),
    {
        match self.find(k) {
            Some(i) => Some(self.vals[i]),
            None => None,
        }
    }

    pub fn contains_key(&self, k: &str) -> (r: bool)
        requires
            self.wf(),
        ensures
            r == self@.contains_key(k@),
    {
        self.find(k).is_some()
    }

    /// Stores `v` under `k`, replacing what was there.
    pub fn insert(&mut self, k: String, v: V)
        requires
            old(self).wf(),
        ensures
            final(self).wf(),
            final(self)@ == old(self)@.insert(k@, v),
    {
        match self.find(k.as_str()) {
            Some(i) => {
                self.vals.set(i, v);
                self.model = Ghost(self.model@.insert(k@, v));
                proof {
                    assert forall|k2: Seq<char>| #[trigger] self.model@.contains_key(k2) implies exists|
                        j: int,
                    | 0 <= j < self.keys@.len() && (#[trigger] self.keys@[j])@ == k2 by {
                        if k2 == k@ {
                            assert(self.keys@[i as int]@ == k2);
                        } else {
                            assert(old(self).model@.contains_key(k2));
                        }
                    }
                }
            },
            None => {
                let ghost kv = k@;
                self.keys.push(k);
                self.vals.push(v);
                self.model = Ghost(self.model@.insert(kv, v));
                proof {
                    let n = old(self).keys@.len() as int;
                    assert(self.keys@[n]@ == kv);
                    assert forall|a: int, b: int|
                        0 <= a < b < self.keys@.len() implies (#[trigger] self.keys@[a])@ != (
                    #[trigger] self.keys@[b])@ by {
                        if b == n {
                            assert(old(self).model@.contains_key(self.keys@[a]@));
                        } else {
                            assert(old(self).keys@[a] == self.keys@[a]);
                            assert(old(self).keys@[b] == self.keys@[b]);
                        }
                    }
                    assert forall|a: int| 0 <= a < self.keys@.len() implies {
                        &&& self.model@.contains_key((#[trigger] self.keys@[a])@)
                        &&& self.model@[self.keys@[a]@] == self.vals@[a]
                    } by {
                        if a < n {
                            assert(old(self).keys@[a] == self.keys@[a]);
                            assert(old(self).model@.contains_key(self.keys@[a]@));
                        }
                    }
                    assert forall|k2: Seq<char>| #[trigger] self.model@.contains_key(k2) implies exists|
                        j: int,
                    | 0 <= j < self.keys@.len() && (#[trigger] self.keys@[j])@ == k2 by {
                        if k2 == kv {
                            assert(self.keys@[n]@ == k2);
                        } else {
                            assert(old(self).model@.contains_key(k2));
                            let j = choose|j: int|
                                0 <= j < old(self).keys@.len() && (#[trigger] old(self).keys@[j])@
                                    == k2;
                            assert(self.keys@[j] == old(self).keys@[j]);
                        }
                    }
                }
            },
        }
    }

    /// Removes `k`, returning the value it had.
    pub fn remove(&mut self, k: &str) -> (r: Option<V>)
        requires
            old(self).wf(),
        ensures
            final(self).wf(),
            final(self)@ == old(self)@.remove(k@),
            r == (if old(self)@.contains_key(k@) { Some(old(self)@[k@]) } else { None::<V> }),
    {
        match self.find(k) {
            None => {
                assert(self@.remove(k@) =~= self@);
                None
            },
            Some(i) => {
                let ghost ok = old(self).keys@;
                let ghost ov = old(self).vals@;
                let _ = self.keys.remove(i);
                let v = self.vals.remove(i);
                self.model = Ghost(self.model@.remove(k@));
                proof {
                    assert forall|a: int| 0 <= a < self.keys@.len() implies (#[trigger] self.keys@[a])
                        == if a < i {
                        ok[a]
                    } else {
                        ok[a + 1]
                    } by {}
                    assert forall|a: int, b: int|
                        0 <= a < b < self.keys@.len() implies (#[trigger] self.keys@[a])@ != (
                    #[trigger] self.keys@[b])@ by {
                        let a2 = if a < i { a } else { a + 1 };
                        let b2 = if b < i { b } else { b + 1 };
                        assert(ok[a2]@ != ok[b2]@);
                    }
                    assert forall|a: int| 0 <= a < self.keys@.len() implies {
                        &&& self.model@.contains_key((#[trigger] self.keys@[a])@)
                        &&& self.model@[self.keys@[a]@] == self.vals@[a]
                    } by {
                        let a2 = if a < i { a } else { a + 1 };
                        assert(ok[a2] == self.keys@[a]);
                        assert(ov[a2] == self.vals@[a]);
                        assert(ok[a2]@ != ok[i as int]@);
                    }
                    assert forall|k2: Seq<char>| #[trigger] self.model@.contains_key(k2) implies exists|
                        j: int,
                    | 0 <= j < self.keys@.len() && (#[trigger] self.keys@[j])@ == k2 by {
                        let j = choose|j: int| 0 <= j < ok.len() && (#[trigger] ok[j])@ == k2;
                        assert(j != i);
                        let j2 = if j < i { j } else { j - 1 };
                        assert(self.keys@[j2] == ok[j]);
                    }
                }
                Some(v)
            },
        }
    }

    /// Keeps the entries whose value `keep` accepts and drops the others.
    pub fn retain<F: Fn(&V) -> bool>(&mut self, keep: F)
        requires
            old(self).wf(),
            forall|v: &V| #[trigger] keep.requires((v,)),
        ensures
            final(self).wf(),
            forall|k: Seq<char>| #[trigger]
                final(self)@.contains_key(k) ==> {
                    &&& old(self)@.contains_key(k)
                    &&& final(self)@[k] == old(self)@[k]
                    &&& keep.ensures((&old(self)@[k],), true)
                },
            forall|k: Seq<char>|
                #[trigger] old(self)@.contains_key(k) && !final(self)@.contains_key(k) ==> keep.ensures(
                    (&old(self)@[k],),
                    false,
                ),
    {
        let mut out: StrMap<V> = StrMap::new();
        let mut i: usize = 0;
        while i < self.keys.len()
            invariant
                self.wf(),
                out.wf(),
                0 <= i <= self.keys@.len(),
                forall|v: &V| #[trigger] keep.requires((v,)),
                forall|k: Seq<char>| #[trigger]
                    out@.contains_key(k) ==> {
                        &&& self@.contains_key(k)
                        &&& out@[k] == self@[k]
                        &&& keep.ensures((&self@[k],), true)
                    },
                forall|j: int|
                    0 <= j < i ==> out@.contains_key((#[trigger] self.keys@[j])@) || keep.ensures(
                        (&self.vals@[j],),
                        false,
                    ),
            decreases self.keys@.len() - i,
        {
            let v = self.vals[i];
            let b = keep(&v);
            if b {
                let k = self.keys[i].clone();
                out.insert(k, v);
                proof {
                    assert(self.model@.contains_key(self.keys@[i as int]@));
                }
            }
            i = i + 1;
        }
        proof {
            assert forall|k: Seq<char>|
                #[trigger] self@.contains_key(k) && !out@.contains_key(k) implies keep.ensures(
                (&self@[k],),
                false,
            ) by {
                let j = choose|j: int| 0 <= j < self.keys@.len() && (#[trigger] self.keys@[j])@ == k;
                assert(out@.contains_key(self.keys@[j]@) || keep.ensures((&self.vals@[j],), false));
            }
        }
        *self = out;
    }
}

} // verus!
