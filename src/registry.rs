use vstd::prelude::*;

verus! {

/// The characters of each identifier, in order.
pub open spec fn views(ids: Seq<String>) -> Seq<Seq<char>> {
    ids.map_values(|id: String| id@)
}

/// A store of values keyed by room identifier, each key at most once.
pub struct Registry<V> {
    entries: Vec<(String, V)>,
}

impl<V> Registry<V> {
    /// Each key is held at most once.
    pub closed spec fn wf(&self) -> bool {
        forall|i: int, j: int|
            0 <= i < j < self.entries@.len() ==> #[trigger] self.entries@[i].0@
                != #[trigger] self.entries@[j].0@
    }

    closed spec fn holds_at(&self, k: Seq<char>, i: int) -> bool {
        0 <= i < self.entries@.len() && self.entries@[i].0@ == k
    }

    /// What the store holds, key by key.
    pub closed spec fn view(&self) -> Map<Seq<char>, V> {
        Map::new(
            |k: Seq<char>| exists|i: int| self.holds_at(k, i),
            |k: Seq<char>| self.entries@[choose|i: int| self.holds_at(k, i)].1,
        )
    }

    proof fn lemma_entry(&self, i: int)
        requires
            self.wf(),
            0 <= i < self.entries@.len(),
        ensures
            self.view().contains_key(self.entries@[i].0@),
            self.view()[self.entries@[i].0@] == self.entries@[i].1,
    {
        let k = self.entries@[i].0@;
        assert(self.holds_at(k, i));
        let j = choose|j: int| self.holds_at(k, j);
        if j < i {
            assert(self.entries@[j].0@ != self.entries@[i].0@);
        } else if i < j {
            assert(self.entries@[i].0@ != self.entries@[j].0@);
        }
    }

    /// An empty store.
    pub fn new() -> (r: Self)
        ensures
            r.wf(),
            r.view() == Map::<Seq<char>, V>::empty(),
    {
        let r = Registry { entries: Vec::new() };
        assert(r.view() =~= Map::<Seq<char>, V>::empty());
        r
    }

    /// The number of keys held.
    pub fn len(&self) -> (r: usize)
        requires
            self.wf(),
        ensures
            r == self.view().len(),
    {
        proof {
            self.lemma_len();
        }
        self.entries.len()
    }

    proof fn lemma_len(&self)
        requires
            self.wf(),
        ensures
            self.view().len() == self.entries@.len(),
            self.view().dom().finite(),
        decreases self.entries@.len(),
    {
        let keys = self.entries@.map_values(|e: (String, V)| e.0@);
        assert forall|i: int, j: int| 0 <= i < j < keys.len() implies keys[i] != keys[j] by {
            assert(self.entries@[i].0@ != self.entries@[j].0@);
        }
        assert(keys.no_duplicates());
        assert forall|k: Seq<char>| self.view().dom().contains(k) <==> keys.to_set().contains(k) by {
            if self.view().dom().contains(k) {
                let i = choose|i: int| self.holds_at(k, i);
                assert(keys[i] == k);
            }
            if keys.to_set().contains(k) {
                let i = choose|i: int| 0 <= i < keys.len() && keys[i] == k;
                assert(self.holds_at(k, i));
            }
        }
        assert(self.view().dom() =~= keys.to_set());
        keys.unique_seq_to_set();
    }

    /// The position of `key` among the entries, if it is held.
    fn find(&self, key: &String) -> (r: Option<usize>)
        ensures
            r matches Some(i) ==> i < self.entries@.len() && self.entries@[i as int].0@ == key@,
            r is None ==> forall|i: int|
                0 <= i < self.entries@.len() ==> self.entries@[i].0@ != key@,
    {
        let mut i: usize = 0;
        while i < self.entries.len()
            invariant
                i <= self.entries@.len(),
                forall|j: int| 0 <= j < i ==> self.entries@[j].0@ != key@,
            decreases self.entries@.len() - i,
        {
            if self.entries[i].0 == *key {
                return Some(i);
            }
            i = i + 1;
        }
        None
    }

    /// Whether `key` is held.
    pub fn contains_key(&self, key: &String) -> (r: bool)
        requires
            self.wf(),
        ensures
            r == self.view().contains_key(key@),
    {
        match self.find(key) {
            Some(i) => {
                proof {
                    self.lemma_entry(i as int);
                }
                true
            },
            None => {
                assert(!self.view().contains_key(key@)) by {
                    if self.view().contains_key(key@) {
                        let i = choose|i: int| self.holds_at(key@, i);
                        assert(self.entries@[i].0@ != key@);
                    }
                }
                false
            },
        }
    }

    /// The value held for `key`, if any.
    pub fn get(&self, key: &String) -> (r: Option<&V>)
        requires
            self.wf(),
        ensures
            self.view().contains_key(key@) ==> r == Some(&self.view()[key@]),
            !self.view().contains_key(key@) ==> r is None,
    {
        match self.find(key) {
            Some(i) => {
                proof {
                    self.lemma_entry(i as int);
                }
                Some(&self.entries[i].1)
            },
            None => {
                assert(!self.view().contains_key(key@)) by {
                    if self.view().contains_key(key@) {
                        let i = choose|i: int| self.holds_at(key@, i);
                        assert(self.entries@[i].0@ != key@);
                    }
                }
                None
            },
        }
    }

    /// Holds `value` for `key`, in place of whatever was held for it.
    pub fn insert(&mut self, key: String, value: V)
        requires
            old(self).wf(),
        ensures
            final(self).wf(),
            final(self).view() == old(self).view().insert(key@, value),
    {
        let ghost k = key@;
        let ghost pre = *self;
        match self.find(&key) {
            Some(i) => {
                self.entries.remove(i);
                self.entries.insert(i, (key, value));
                assert(self.entries@ =~= pre.entries@.update(i as int, self.entries@[i as int]));
                proof {
                    assert forall|j: int| 0 <= j < self.entries@.len() implies #[trigger] self.entries@[j].0@
                        == pre.entries@[j].0@ by {}
                    assert(self.wf());
                    self.lemma_entry(i as int);
                    let target = pre.view().insert(k, value);
                    assert forall|k2: Seq<char>| #[trigger] self.view().dom().contains(k2)
                        == target.dom().contains(k2) && (self.view().dom().contains(k2)
                        ==> self.view()[k2] == target[k2]) by {
                        if k2 != k && self.view().contains_key(k2) {
                            let j = choose|j: int| self.holds_at(k2, j);
                            self.lemma_entry(j);
                            pre.lemma_entry(j);
                        }
                        if k2 != k && pre.view().contains_key(k2) {
                            let j = choose|j: int| pre.holds_at(k2, j);
                            assert(self.holds_at(k2, j));
                        }
                    }
                    assert(self.view() =~= target);
                }
            },
            None => {
                self.entries.push((key, value));
                proof {
                    let n = pre.entries@.len() as int;
                    assert forall|j: int| 0 <= j < n implies #[trigger] self.entries@[j]
                        == pre.entries@[j] by {}
                    assert(self.wf());
                    self.lemma_entry(n);
                    let target = pre.view().insert(k, value);
                    assert forall|k2: Seq<char>| #[trigger] self.view().dom().contains(k2)
                        == target.dom().contains(k2) && (self.view().dom().contains(k2)
                        ==> self.view()[k2] == target[k2]) by {
                        if k2 != k && self.view().contains_key(k2) {
                            let j = choose|j: int| self.holds_at(k2, j);
                            self.lemma_entry(j);
                            assert(j < n);
                            pre.lemma_entry(j);
                        }
                        if k2 != k && pre.view().contains_key(k2) {
                            let j = choose|j: int| pre.holds_at(k2, j);
                            assert(self.holds_at(k2, j));
                        }
                    }
                    assert(self.view() =~= target);
                }
            },
        }
    }

    /// The identifiers of `ids` that the store does not hold yet, in their
    /// order.
    pub fn unknown_keys(&self, ids: &Vec<String>) -> (r: Vec<String>)
        requires
            self.wf(),
        ensures
            views(r@) == views(ids@).filter(|k: Seq<char>| !self.view().contains_key(k)),
    {
        let ghost known = self.view();
        let mut r: Vec<String> = Vec::new();
        let mut i: usize = 0;
        while i < ids.len()
            invariant
                i <= ids@.len(),
                known == self.view(),
                self.wf(),
                views(r@) == views(ids@.take(i as int)).filter(
                    |k: Seq<char>| !known.contains_key(k),
                ),
            decreases ids@.len() - i,
        {
            let id = &ids[i];
            let known_now = self.contains_key(id);
            proof {
                reveal(Seq::filter);
                assert(views(ids@.take(i + 1)).drop_last() =~= views(ids@.take(i as int)));
                assert(views(ids@.take(i + 1)).last() == id@);
            }
            if !known_now {
                r.push(id.clone());
                assert(views(r@) =~= views(ids@.take(i as int)).filter(
                    |k: Seq<char>| !known.contains_key(k),
                ).push(id@));
            }
            i = i + 1;
        }
        assert(ids@.take(ids@.len() as int) =~= ids@);
        r
    }
}

} // verus!
