use vstd::prelude::*;

verus! {

/// A finite table from `String` keys to values, stored as an association
/// list whose keys are pairwise distinct and abstracted as a
/// `Map<Seq<char>, V>`.
///
/// Every table the supervisor keeps (services, in-flight cancellations,
/// monitor tasks, process ids, active-service snapshots, provider
/// configurations) is an instance of this type.
pub struct StrMap<V> {
    pairs: Vec<(String, V)>,
}

impl<V> View for StrMap<V> {
    type V = Map<Seq<char>, V>;

    closed spec fn view(&self) -> Map<Seq<char>, V> {
        Map::new(
            |k: Seq<char>| self.has_key(k),
            |k: Seq<char>| self.pairs@[self.index_of(k)].1,
        )
    }
}

impl<V> StrMap<V> {
    /// Keys are pairwise distinct, so each key denotes at most one value.
    pub closed spec fn wf(self) -> bool {
        forall|i: int, j: int|
            0 <= i < j < self.pairs@.len() ==> self.pairs@[i].0@ != self.pairs@[j].0@
    }

    spec fn has_key(self, k: Seq<char>) -> bool {
        exists|i: int| 0 <= i < self.pairs@.len() && self.pairs@[i].0@ == k
    }

    spec fn index_of(self, k: Seq<char>) -> int {
        choose|i: int| 0 <= i < self.pairs@.len() && self.pairs@[i].0@ == k
    }

    /// The entry at position `i` is the one the abstract map associates
    /// with its key: distinct keys make the witness index unique.
    proof fn lemma_entry(self, i: int)
        requires
            self.wf(),
            0 <= i < self.pairs@.len(),
        ensures
            self@.contains_key(self.pairs@[i].0@),
            self.index_of(self.pairs@[i].0@) == i,
            self@[self.pairs@[i].0@] == self.pairs@[i].1,
    {
        let k = self.pairs@[i].0@;
        assert(self.has_key(k));
        let j = self.index_of(k);
        assert(0 <= j < self.pairs@.len() && self.pairs@[j].0@ == k);
        if j < i {
            assert(self.pairs@[j].0@ != self.pairs@[i].0@);
        }
        if i < j {
            assert(self.pairs@[i].0@ != self.pairs@[j].0@);
        }
    }

    pub fn new() -> (r: Self)
        ensures
            r.wf(),
            r@ == Map::<Seq<char>, V>::empty(),
    {
        let r = StrMap { pairs: Vec::new() };
        proof {
            assert(r@ =~= Map::<Seq<char>, V>::empty());
        }
        r
    }

    fn find(&self, name: &String) -> (r: Option<usize>)
        requires
            self.wf(),
        ensures
            (match r {
                Some(i) => {
                    &&& i < self.pairs@.len()
                    &&& self.pairs@[i as int].0@ == name@
                    &&& self@.contains_key(name@)
                    &&& self@[name@] == self.pairs@[i as int].1
                },
                None => !self@.contains_key(name@),
            }),
    {
        let mut i: usize = 0;
        while i < self.pairs.len()
            invariant
                self.wf(),
                i <= self.pairs@.len(),
                forall|j: int| 0 <= j < i ==> self.pairs@[j].0@ != name@,
            decreases self.pairs@.len() - i,
        {
            if self.pairs[i].0 == *name {
                proof {
                    self.lemma_entry(i as int);
                }
                return Some(i);
            }
            i = i + 1;
        }
        proof {
            assert(!self.has_key(name@));
        }
        None
    }

    /// Whether `name` is bound.
    pub fn contains(&self, name: &String) -> (r: bool)
        requires
            self.wf(),
        ensures
            r == self@.contains_key(name@),
    {
        self.find(name).is_some()
    }

    /// The value bound to `name`, if any.
    pub fn get(&self, name: &String) -> (r: Option<&V>)
        requires
            self.wf(),
        ensures
            (match r {
                Some(v) => self@.contains_key(name@) && *v == self@[name@],
                None => !self@.contains_key(name@),
            }),
    {
        match self.find(name) {
            Some(i) => Some(&self.pairs[i].1),
            None => None,
        }
    }

    /// Bind a key that is not yet present.
    pub fn insert(&mut self, name: String, value: V)
        requires
            old(self).wf(),
            !old(self)@.contains_key(name@),
        ensures
            final(self).wf(),
            final(self)@ == old(self)@.insert(name@, value),
    {
        let ghost prev = *self;
        let ghost p: (String, V) = (name, value);
        self.pairs.push((name, value));
        proof {
            let n = p.0@;
            assert(self.pairs@ == prev.pairs@.push(p));
            assert(!prev.has_key(n));
            assert forall|i: int| 0 <= i < prev.pairs@.len() implies prev.pairs@[i].0@ != n by {
                if prev.pairs@[i].0@ == n {
                    assert(prev.has_key(n));
                }
            }
            assert forall|i: int, j: int| 0 <= i < j < self.pairs@.len() implies
                self.pairs@[i].0@ != self.pairs@[j].0@ by {
                if j < prev.pairs@.len() {
                    assert(prev.pairs@[i].0@ != prev.pairs@[j].0@);
                } else {
                    assert(self.pairs@[j] == p);
                    assert(self.pairs@[i] == prev.pairs@[i]);
                }
            }
            assert(self.wf());
            assert forall|k: Seq<char>| #[trigger] self.has_key(k) implies
                prev.has_key(k) || k == n by {
                let i = choose|i: int| 0 <= i < self.pairs@.len() && self.pairs@[i].0@ == k;
                if i < prev.pairs@.len() {
                    assert(prev.pairs@[i].0@ == k);
                    assert(prev.has_key(k));
                }
            }
            assert forall|k: Seq<char>| #[trigger] prev.has_key(k) implies self.has_key(k) by {
                let i = choose|i: int| 0 <= i < prev.pairs@.len() && prev.pairs@[i].0@ == k;
                assert(self.pairs@[i].0@ == k);
            }
            assert(self.pairs@[prev.pairs@.len() as int] == p);
            assert(self.has_key(n));
            assert forall|k: Seq<char>| #[trigger] self.has_key(k) && k != n implies
                prev@.contains_key(k) && self@[k] == prev@[k] by {
                let i = choose|i: int| 0 <= i < self.pairs@.len() && self.pairs@[i].0@ == k;
                assert(i < prev.pairs@.len());
                self.lemma_entry(i);
                prev.lemma_entry(i);
            }
            self.lemma_entry(prev.pairs@.len() as int);
            assert(self@[n] == p.1);
            assert(self@ =~= prev@.insert(n, p.1));
        }
    }

    /// Remove `name`'s binding if present; an absent key leaves the table
    /// untouched.
    pub fn remove(&mut self, name: &String) -> (r: Option<V>)
        requires
            old(self).wf(),
        ensures
            final(self).wf(),
            final(self)@ == old(self)@.remove(name@),
            (match r {
                Some(v) => old(self)@.contains_key(name@) && v == old(self)@[name@],
                None => !old(self)@.contains_key(name@) && *final(self) == *old(self),
            }),
    {
        match self.find(name) {
            None => {
                proof {
                    assert(self@ =~= old(self)@.remove(name@));
                }
                None
            },
            Some(i) => {
                let ghost prev = *self;
                let ghost n = name@;
                let pair = self.pairs.remove(i);
                proof {
                    prev.lemma_entry(i as int);
                    prev.pairs@.remove_ensures(i as int);
                    let oldp = prev.pairs@;
                    let newp = self.pairs@;
                    assert(newp == oldp.remove(i as int));
                    assert forall|a: int| 0 <= a < newp.len() implies
                        newp[a] == (if a < i { oldp[a] } else { oldp[a + 1] }) by {}
                    assert forall|a: int, b: int| 0 <= a < b < newp.len() implies
                        newp[a].0@ != newp[b].0@ by {
                        let a2 = if a < i { a } else { a + 1 };
                        let b2 = if b < i { b } else { b + 1 };
                        assert(oldp[a2].0@ != oldp[b2].0@);
                    }
                    assert(self.wf());
                    assert forall|k: Seq<char>| #[trigger] self.has_key(k) implies
                        prev.has_key(k) && k != n by {
                        let a = choose|a: int| 0 <= a < newp.len() && newp[a].0@ == k;
                        let a2 = if a < i { a } else { a + 1 };
                        assert(oldp[a2].0@ == k);
                        assert(prev.has_key(k));
                        if k == n {
                            if a2 < i {
                                assert(oldp[a2].0@ != oldp[i as int].0@);
                            } else {
                                assert(oldp[i as int].0@ != oldp[a2].0@);
                            }
                        }
                    }
                    assert forall|k: Seq<char>| #[trigger] prev.has_key(k) && k != n implies
                        self.has_key(k) by {
                        let a2 = choose|a2: int| 0 <= a2 < oldp.len() && oldp[a2].0@ == k;
                        let a = if a2 < i { a2 } else { a2 - 1 };
                        assert(a2 != i);
                        assert(newp[a].0@ == k);
                    }
                    assert forall|k: Seq<char>| #[trigger] self.has_key(k) implies
                        self@[k] == prev@[k] by {
                        let a = choose|a: int| 0 <= a < newp.len() && newp[a].0@ == k;
                        let a2 = if a < i { a } else { a + 1 };
                        self.lemma_entry(a);
                        prev.lemma_entry(a2);
                    }
                    assert(self@ =~= prev@.remove(n));
                }
                Some(pair.1)
            },
        }
    }

    /// Bind `name` to `value`, replacing any present binding.
    pub fn set_value(&mut self, name: String, value: V)
        requires
            old(self).wf(),
        ensures
            final(self).wf(),
            final(self)@ == old(self)@.insert(name@, value),
    {
        let _ = self.remove(&name);
        self.insert(name, value);
        proof {
            assert(self@ =~= old(self)@.insert(name@, value));
        }
    }

    /// A snapshot of the keys, in no particular order, without duplicates.
    pub fn keys(&self) -> (r: Vec<String>)
        requires
            self.wf(),
        ensures
            forall|i: int| 0 <= i < r@.len() ==> self@.contains_key(#[trigger] r@[i]@),
            forall|k: Seq<char>| self@.contains_key(k) ==>
                exists|i: int| 0 <= i < r@.len() && #[trigger] r@[i]@ == k,
            forall|i: int, j: int| 0 <= i < j < r@.len() ==> r@[i]@ != r@[j]@,
    {
        let mut r: Vec<String> = Vec::new();
        let mut i: usize = 0;
        while i < self.pairs.len()
            invariant
                self.wf(),
                i <= self.pairs@.len(),
                r@.len() == i,
                forall|j: int| 0 <= j < i ==> r@[j]@ == self.pairs@[j].0@,
            decreases self.pairs@.len() - i,
        {
            r.push(self.pairs[i].0.clone());
            i = i + 1;
        }
        proof {
            assert forall|j: int| 0 <= j < r@.len() implies
                self@.contains_key(#[trigger] r@[j]@) by {
                self.lemma_entry(j);
            }
            assert forall|k: Seq<char>| self@.contains_key(k) implies
                exists|j: int| 0 <= j < r@.len() && #[trigger] r@[j]@ == k by {
                let a = choose|a: int| 0 <= a < self.pairs@.len() && self.pairs@[a].0@ == k;
                assert(r@[a]@ == k);
            }
        }
        r
    }

    /// Whether the table is empty.
    pub fn is_empty(&self) -> (r: bool)
        requires
            self.wf(),
        ensures
            r == (self@ == Map::<Seq<char>, V>::empty()),
    {
        let r = self.pairs.is_empty();
        proof {
            if r {
                assert(self@ =~= Map::<Seq<char>, V>::empty());
            } else {
                self.lemma_entry(0);
                assert(self@.contains_key(self.pairs@[0].0@));
            }
        }
        r
    }

    /// Drop every binding.
    pub fn clear(&mut self)
        ensures
            final(self).wf(),
            final(self)@ == Map::<Seq<char>, V>::empty(),
    {
        self.pairs.clear();
        proof {
            assert(self@ =~= Map::<Seq<char>, V>::empty());
        }
    }
}

impl<V: Copy> StrMap<V> {
    /// A snapshot of the bindings, in no particular order: every returned
    /// pair is a binding of the table, every binding appears, and no key is
    /// repeated.
    pub fn entries(&self) -> (r: Vec<(String, V)>)
        requires
            self.wf(),
        ensures
            forall|i: int| #![trigger r@[i]] 0 <= i < r@.len() ==>
                self@.contains_key(r@[i].0@) && self@[r@[i].0@] == r@[i].1,
            forall|k: Seq<char>| self@.contains_key(k) ==>
                exists|i: int| 0 <= i < r@.len() && #[trigger] r@[i].0@ == k,
            forall|i: int, j: int| 0 <= i < j < r@.len() ==> r@[i].0@ != r@[j].0@,
    {
        let mut r: Vec<(String, V)> = Vec::new();
        let mut i: usize = 0;
        while i < self.pairs.len()
            invariant
                self.wf(),
                i <= self.pairs@.len(),
                r@.len() == i,
                forall|j: int| #![trigger r@[j]] 0 <= j < i ==>
                    r@[j].0@ == self.pairs@[j].0@ && r@[j].1 == self.pairs@[j].1,
            decreases self.pairs@.len() - i,
        {
            let key = self.pairs[i].0.clone();
            r.push((key, self.pairs[i].1));
            i = i + 1;
        }
        proof {
            assert forall|j: int| #![trigger r@[j]] 0 <= j < r@.len() implies
                self@.contains_key(r@[j].0@) && self@[r@[j].0@] == r@[j].1 by {
                self.lemma_entry(j);
            }
            assert forall|k: Seq<char>| self@.contains_key(k) implies
                exists|j: int| 0 <= j < r@.len() && #[trigger] r@[j].0@ == k by {
                let a = choose|a: int| 0 <= a < self.pairs@.len() && self.pairs@[a].0@ == k;
                assert(r@[a].0@ == k);
            }
        }
        r
    }
}

} // verus!
