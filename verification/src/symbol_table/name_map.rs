use vstd::prelude::*;

verus! {

/// A finite map from names to values, kept as a list of bindings in insertion order.
///
/// A well-formed map binds no name twice.
pub struct NameMap<V> {
    entries: Vec<(String, V)>,
}

impl<V: View> NameMap<V> {
    /// No two bindings carry the same name.
    pub closed spec fn wf(&self) -> bool {
        forall|i: int, j: int|
            0 <= i < j < self.entries.len() ==> self.entries[i].0@ != self.entries[j].0@
    }

    /// The name at position `i` is `name`.
    pub closed spec fn binds_at(&self, name: Seq<char>, i: int) -> bool {
        0 <= i < self.entries.len() && self.entries[i].0@ == name
    }

    /// Some binding carries `name`.
    pub closed spec fn binds(&self, name: Seq<char>) -> bool {
        exists|i: int| self.binds_at(name, i)
    }

    /// The value bound to `name`, where there is one.
    pub closed spec fn value_of(&self, name: Seq<char>) -> V::V {
        self.entries[choose|i: int| self.binds_at(name, i)].1@
    }

    /// The map that the bindings stand for.
    pub closed spec fn view(&self) -> Map<Seq<char>, V::V> {
        Map::new(|name: Seq<char>| self.binds(name), |name: Seq<char>| self.value_of(name))
    }

    /// The number of bindings.
    pub closed spec fn spec_len(&self) -> nat {
        self.entries.len() as nat
    }

    /// The name of the binding at position `i`, in insertion order.
    pub closed spec fn spec_name(&self, i: int) -> Seq<char> {
        self.entries[i].0@
    }

    /// The value of the binding at position `i`, in insertion order.
    pub closed spec fn spec_value(&self, i: int) -> V {
        self.entries[i].1
    }

    /// In a well-formed map the binding at position `i` is the one that the view gives for its
    /// name.
    pub proof fn lemma_binding(&self, i: int)
        requires
            self.wf(),
            0 <= i < self.spec_len(),
        ensures
            self@.contains_key(self.spec_name(i)),
            self@[self.spec_name(i)] == self.spec_value(i)@,
    {
        let name = self.spec_name(i);
        assert(self.binds_at(name, i));
        let p = choose|p: int| self.binds_at(name, p);
        assert(self.binds_at(name, p));
        assert(p == i);
    }

    /// Two lists with the same names and the same views of values stand for the same map.
    pub proof fn lemma_same_view(&self, other: &Self)
        requires
            self.wf(),
            self.spec_len() == other.spec_len(),
            forall|i: int|
                0 <= i < self.spec_len() ==> #[trigger] self.spec_name(i) == other.spec_name(i),
            forall|i: int|
                0 <= i < self.spec_len() ==> (#[trigger] self.spec_value(i))@
                    == other.spec_value(i)@,
        ensures
            self@ == other@,
            other.wf(),
    {
        assert forall|name: Seq<char>, i: int| self.binds_at(name, i) == other.binds_at(name, i) by {
            if 0 <= i < self.spec_len() {
                assert(self.spec_name(i) == other.spec_name(i));
            }
        }
        assert forall|name: Seq<char>| self.binds(name) == other.binds(name) by {
            if self.binds(name) {
                let i = choose|i: int| self.binds_at(name, i);
                assert(other.binds_at(name, i));
            }
            if other.binds(name) {
                let i = choose|i: int| other.binds_at(name, i);
                assert(self.binds_at(name, i));
            }
        }
        assert forall|name: Seq<char>| self.binds(name) implies self.value_of(name)
            == other.value_of(name) by {
            let i = choose|i: int| self.binds_at(name, i);
            assert(self.binds_at(name, i));
            let j = choose|j: int| other.binds_at(name, j);
            assert(other.binds_at(name, i));
            assert(other.binds_at(name, j));
            assert(self.binds_at(name, j));
            assert(i == j);
            assert(self.spec_value(i)@ == other.spec_value(i)@);
        }
        assert(self@ =~= other@);
        assert forall|i: int, j: int| 0 <= i < j < other.entries.len() implies other.entries[i].0@
            != other.entries[j].0@ by {
            assert(self.spec_name(i) == other.spec_name(i));
            assert(self.spec_name(j) == other.spec_name(j));
        }
    }

    /// A copy of the map: the same names in the same order, each with a clone of its value.
    pub fn duplicate(&self) -> (r: Self) where V: Clone
        ensures
            r.spec_len() == self.spec_len(),
            forall|i: int|
                0 <= i < self.spec_len() ==> #[trigger] r.spec_name(i) == self.spec_name(i),
            forall|i: int|
                0 <= i < self.spec_len() ==> cloned(self.spec_value(i), #[trigger] r.spec_value(i)),
    {
        let mut entries: Vec<(String, V)> = Vec::new();
        let mut i: usize = 0;
        while i < self.entries.len()
            invariant
                i <= self.entries.len(),
                entries.len() == i,
                forall|j: int| 0 <= j < i ==> (#[trigger] entries[j]).0@ == self.entries[j].0@,
                forall|j: int| 0 <= j < i ==> cloned(self.entries[j].1, (#[trigger] entries[j]).1),
            decreases self.entries.len() - i,
        {
            let name = self.entries[i].0.clone();
            let value = self.entries[i].1.clone();
            entries.push((name, value));
            i += 1;
        }
        NameMap { entries }
    }

    /// An empty map.
    pub fn new() -> (r: Self)
        ensures
            r.wf(),
            r@ == Map::<Seq<char>, V::V>::empty(),
            r.spec_len() == 0,
    {
        let r = NameMap { entries: Vec::new() };
        assert(r@ =~= Map::<Seq<char>, V::V>::empty()) by {
            assert forall|name: Seq<char>| !r.binds(name) by {
                assert forall|i: int| !r.binds_at(name, i) by {}
            }
        }
        r
    }

    /// The number of bindings.
    pub fn len(&self) -> (n: usize)
        ensures
            n == self.spec_len(),
    {
        self.entries.len()
    }

    /// Looks `name` up.
    pub fn get(&self, name: &String) -> (r: Option<&V>)
        requires
            self.wf(),
        ensures
            match r {
                Some(v) => self@.contains_key(name@) && self@[name@] == v@,
                None => !self@.contains_key(name@),
            },
    {
        let mut i: usize = 0;
        while i < self.entries.len()
            invariant
                self.wf(),
                i <= self.entries.len(),
                forall|j: int| 0 <= j < i ==> !self.binds_at(name@, j),
            decreases self.entries.len() - i,
        {
            if self.entries[i].0 == *name {
                proof {
                    assert(self.spec_name(i as int) == name@);
                    self.lemma_binding(i as int);
                }
                return Some(&self.entries[i].1);
            }
            i += 1;
        }
        None
    }

    /// Binds `name` to `value` and returns the value that `name` was bound to before, if any.
    pub fn insert(&mut self, name: String, value: V) -> (r: Option<V>)
        requires
            old(self).wf(),
        ensures
            final(self).wf(),
            final(self)@ == old(self)@.insert(name@, value@),
            match r {
                Some(v) => old(self)@.contains_key(name@) && old(self)@[name@] == v@,
                None => !old(self)@.contains_key(name@),
            },
    {
        let ghost before = *self;
        let mut i: usize = 0;
        while i < self.entries.len()
            invariant
                *self == before,
                before == *old(self),
                self.wf(),
                i <= self.entries.len(),
                forall|j: int| 0 <= j < i ==> !self.binds_at(name@, j),
            decreases self.entries.len() - i,
        {
            if self.entries[i].0 == name {
                proof {
                    assert(before.spec_name(i as int) == name@);
                    before.lemma_binding(i as int);
                }
                let mut pair = (name, value);
                std::mem::swap(&mut self.entries[i], &mut pair);
                proof {
                    assert(pair == before.entries[i as int]);
                    assert(self.entries@ == before.entries@.update(i as int, (name, value)));
                    assert(forall|j: int|
                        0 <= j < self.entries.len() ==> self.entries[j].0@
                            == before.entries[j].0@);
                    assert(self.wf());
                    assert forall|k: Seq<char>| self.binds(k) == (before.binds(k) || k == name@) by {
                        if before.binds(k) {
                            let p = choose|p: int| before.binds_at(k, p);
                            assert(self.binds_at(k, p));
                        }
                        if k == name@ {
                            assert(self.binds_at(k, i as int));
                        }
                        if self.binds(k) {
                            let p = choose|p: int| self.binds_at(k, p);
                            assert(before.binds_at(k, p));
                        }
                    }
                    assert forall|k: Seq<char>| self.binds(k) implies self.value_of(k) == (if k
                        == name@ {
                        value@
                    } else {
                        before.value_of(k)
                    }) by {
                        let p = choose|p: int| self.binds_at(k, p);
                        assert(self.binds_at(k, p));
                        if k == name@ {
                            assert(self.binds_at(k, i as int));
                            assert(p == i);
                        } else {
                            assert(before.binds_at(k, p));
                            let q = choose|q: int| before.binds_at(k, q);
                            assert(before.binds_at(k, q));
                            assert(p == q);
                        }
                    }
                    assert(self@ =~= before@.insert(name@, value@));
                }
                return Some(pair.1);
            }
            i += 1;
        }
        self.entries.push((name, value));
        proof {
            let n = before.entries.len() as int;
            assert(self.entries@ == before.entries@.push((name, value)));
            assert(forall|j: int| 0 <= j < n ==> self.entries[j] == before.entries[j]);
            assert(forall|j: int| 0 <= j < n ==> !before.binds_at(name@, j));
            assert(self.wf()) by {
                assert forall|a: int, b: int| 0 <= a < b < self.entries.len() implies self.entries[a].0@
                    != self.entries[b].0@ by {
                    if b == n {
                        assert(!before.binds_at(name@, a));
                    }
                }
            }
            assert(!before.binds(name@));
            assert forall|k: Seq<char>| self.binds(k) == (before.binds(k) || k == name@) by {
                if before.binds(k) {
                    let p = choose|p: int| before.binds_at(k, p);
                    assert(self.binds_at(k, p));
                }
                if k == name@ {
                    assert(self.binds_at(k, n));
                }
                if self.binds(k) {
                    let p = choose|p: int| self.binds_at(k, p);
                    if p < n {
                        assert(before.binds_at(k, p));
                    }
                }
            }
            assert forall|k: Seq<char>| self.binds(k) implies self.value_of(k) == (if k == name@ {
                value@
            } else {
                before.value_of(k)
            }) by {
                let p = choose|p: int| self.binds_at(k, p);
                assert(self.binds_at(k, p));
                if k == name@ {
                    if p < n {
                        assert(before.binds_at(k, p));
                    }
                    assert(p == n);
                } else {
                    assert(before.binds_at(k, p));
                    let q = choose|q: int| before.binds_at(k, q);
                    assert(before.binds_at(k, q));
                    assert(p == q);
                }
            }
            assert(self@ =~= before@.insert(name@, value@));
        }
        None
    }
}

} // verus!
