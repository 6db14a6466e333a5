//! A map keyed by strings, kept as a list of entries whose keys are
//! pairwise distinct. The relay's and the space's in-memory stores of
//! session tokens and the table of loaded plugins are such maps.
//!
//! A `std::collections::HashMap<String, V>` would not do here: vstd's
//! specification of `HashMap` holds only for key types that obey its key
//! model, and it states that model for integers, `bool` and boxes of
//! them, not for `String`, so nothing could be proved of such a map.

use vstd::prelude::*;

verus! {

/// A finite map from strings to values.
pub struct StringMap<V> {
    entries: Vec<(String, V)>,
}

impl<V> StringMap<V> {
    /// The key of the entry at position `i`.
    pub closed spec fn key_at(&self, i: int) -> Seq<char> {
        self.entries@[i].0@
    }

    /// Whether some entry has key `k`.
    pub closed spec fn has(&self, k: Seq<char>) -> bool {
        exists|i: int| 0 <= i < self.entries@.len() && #[trigger] self.key_at(i) == k
    }

    /// The position of the entry with key `k`, when there is one.
    pub closed spec fn index_of(&self, k: Seq<char>) -> int {
        choose|i: int| 0 <= i < self.entries@.len() && #[trigger] self.key_at(i) == k
    }

    /// No key occurs twice.
    #[verifier::type_invariant]
    pub closed spec fn wf(&self) -> bool {
        forall|i: int, j: int|
            0 <= i < self.entries@.len() && 0 <= j < self.entries@.len() && i != j
                ==> #[trigger] self.key_at(i) != #[trigger] self.key_at(j)
    }

    /// The map that the entries stand for.
    pub closed spec fn view(&self) -> Map<Seq<char>, V> {
        Map::new(|k: Seq<char>| self.has(k), |k: Seq<char>| self.entries@[self.index_of(k)].1)
    }

    proof fn lemma_index_of(&self, i: int)
        requires
            self.wf(),
            0 <= i < self.entries@.len(),
        ensures
            self.has(self.key_at(i)),
            self.index_of(self.key_at(i)) == i,
    {
        let k = self.key_at(i);
        assert(self.key_at(i) == k);
        let j = self.index_of(k);
        assert(0 <= j < self.entries@.len() && self.key_at(j) == k);
    }

    /// An empty map.
    pub fn new() -> (r: Self)
        ensures
            r.view() == Map::<Seq<char>, V>::empty(),
    {
        let r = StringMap { entries: Vec::new() };
        assert(r.view() =~= Map::<Seq<char>, V>::empty());
        r
    }

    /// The number of keys.
    pub fn len(&self) -> (n: usize)
        ensures
            n == self.view().dom().len(),
            self.view().dom().finite(),
    {
        proof {
            use_type_invariant(self);
            self.lemma_dom_len();
        }
        self.entries.len()
    }

    proof fn lemma_dom_len(&self)
        requires
            self.wf(),
        ensures
            self.view().dom().finite(),
            self.view().dom().len() == self.entries@.len(),
    {
        let keys = Seq::new(self.entries@.len(), |i: int| self.key_at(i));
        assert forall|i: int, j: int| 0 <= i < j < keys.len() implies keys[i] != keys[j] by {
            assert(self.key_at(i) != self.key_at(j));
        }
        keys.unique_seq_to_set();
        assert forall|k: Seq<char>| self.view().dom().contains(k) <==> keys.to_set().contains(k) by {
            if self.view().dom().contains(k) {
                let i = self.index_of(k);
                assert(keys[i] == k);
            }
            if keys.to_set().contains(k) {
                let i = choose|i: int| 0 <= i < keys.len() && keys[i] == k;
                assert(self.key_at(i) == k);
            }
        }
        assert(self.view().dom() =~= keys.to_set());
    }

    /// The position of the entry whose key is `key`, if any.
    fn find(&self, key: &String) -> (r: Option<usize>)
        requires
            self.wf(),
        ensures
            match r {
                Some(i) => i < self.entries@.len() && self.key_at(i as int) == key@,
                None => !self.has(key@),
            },
    {
        let n = self.entries.len();
        let mut i: usize = 0;
        while i < n
            invariant
                n == self.entries@.len(),
                0 <= i <= n,
                forall|j: int| 0 <= j < i ==> #[trigger] self.key_at(j) != key@,
            decreases n - i,
        {
            if self.entries[i].0 == *key {
                return Some(i);
            }
            i = i + 1;
        }
        None
    }

    /// Whether `key` is in the map.
    pub fn contains_key(&self, key: &String) -> (r: bool)
        ensures
            r == self.view().dom().contains(key@),
    {
        proof {
            use_type_invariant(self);
        }
        self.find(key).is_some()
    }

    /// The value stored under `key`, if any.
    pub fn get(&self, key: &String) -> (r: Option<&V>)
        ensures
            r == (if self.view().dom().contains(key@) {
                Some(&self.view()[key@])
            } else {
                None
            }),
    {
        proof {
            use_type_invariant(self);
        }
        match self.find(key) {
            Some(i) => {
                proof {
                    self.lemma_index_of(i as int);
                }
                Some(&self.entries[i].1)
            },
            None => None,
        }
    }

    /// Stores `value` under `key`, replacing what was stored there.
    pub fn insert(&mut self, key: String, value: V)
        ensures
            final(self).view() == old(self).view().insert(key@, value),
    {
        proof {
            use_type_invariant(&*self);
        }
        let ghost k = key@;
        let ghost pre = *self;
        match self.find(&key) {
            Some(i) => {
                let mut entries: Vec<(String, V)> = Vec::new();
                std::mem::swap(&mut entries, &mut self.entries);
                entries.set(i, (key, value));
                proof {
                    assert forall|a: int, b: int|
                        0 <= a < entries@.len() && 0 <= b < entries@.len() && a != b
                            implies #[trigger] entries@[a].0@ != #[trigger] entries@[b].0@ by {
                        assert(pre.key_at(a) != pre.key_at(b));
                    }
                }
                self.entries = entries;
                proof {
                    assert forall|a: int, b: int|
                        0 <= a < self.entries@.len() && 0 <= b < self.entries@.len() && a != b
                            implies #[trigger] self.key_at(a) != #[trigger] self.key_at(b) by {
                        assert(self.key_at(a) == pre.key_at(a));
                        assert(self.key_at(b) == pre.key_at(b));
                    }
                    assert forall|c: Seq<char>| #[trigger] self.has(c) == pre.has(c) by {
                        if pre.has(c) {
                            let j = pre.index_of(c);
                            assert(self.key_at(j) == c);
                        }
                        if self.has(c) {
                            let j = self.index_of(c);
                            assert(pre.key_at(j) == c);
                        }
                    }
                    assert forall|c: Seq<char>| self.has(c) implies
                        self.entries@[self.index_of(c)].1 == pre.view().insert(k, value)[c] by {
                        let j = self.index_of(c);
                        self.lemma_index_of(j);
                        if c == k {
                            assert(self.key_at(i as int) == k);
                            self.lemma_index_of(i as int);
                        } else {
                            pre.lemma_index_of(j);
                        }
                    }
                    assert(self.view() =~= pre.view().insert(k, value));
                }
            },
            None => {
                let mut entries: Vec<(String, V)> = Vec::new();
                std::mem::swap(&mut entries, &mut self.entries);
                entries.push((key, value));
                proof {
                    let n = pre.entries@.len() as int;
                    assert forall|a: int, b: int|
                        0 <= a < entries@.len() && 0 <= b < entries@.len() && a != b
                            implies #[trigger] entries@[a].0@ != #[trigger] entries@[b].0@ by {
                        if a < n && b < n {
                            assert(pre.key_at(a) != pre.key_at(b));
                        } else if a < n {
                            assert(pre.key_at(a) != k);
                        } else {
                            assert(pre.key_at(b) != k);
                        }
                    }
                }
                self.entries = entries;
                proof {
                    let n = pre.entries@.len() as int;
                    assert forall|a: int, b: int|
                        0 <= a < self.entries@.len() && 0 <= b < self.entries@.len() && a != b
                            implies #[trigger] self.key_at(a) != #[trigger] self.key_at(b) by {
                        if a < n && b < n {
                            assert(self.key_at(a) == pre.key_at(a));
                            assert(self.key_at(b) == pre.key_at(b));
                        } else if a < n {
                            assert(self.key_at(a) == pre.key_at(a));
                        } else {
                            assert(self.key_at(b) == pre.key_at(b));
                        }
                    }
                    assert forall|c: Seq<char>| #[trigger] self.has(c) == (pre.has(c) || c == k) by {
                        if pre.has(c) {
                            let j = pre.index_of(c);
                            assert(self.key_at(j) == c);
                        }
                        if c == k {
                            assert(self.key_at(n) == k);
                        }
                        if self.has(c) && c != k {
                            let j = self.index_of(c);
                            assert(pre.key_at(j) == c);
                        }
                    }
                    assert forall|c: Seq<char>| self.has(c) implies
                        self.entries@[self.index_of(c)].1 == pre.view().insert(k, value)[c] by {
                        let j = self.index_of(c);
                        self.lemma_index_of(j);
                        if c == k {
                            self.lemma_index_of(n);
                        } else {
                            pre.lemma_index_of(j);
                        }
                    }
                    assert(self.view() =~= pre.view().insert(k, value));
                }
            },
        }
    }

    /// Removes the entry stored under `key` and hands its value back.
    pub fn remove(&mut self, key: &String) -> (r: Option<V>)
        ensures
            final(self).view() == old(self).view().remove(key@),
            r == (if old(self).view().dom().contains(key@) {
                Some(old(self).view()[key@])
            } else {
                None
            }),
    {
        proof {
            use_type_invariant(&*self);
        }
        let ghost k = key@;
        let ghost pre = *self;
        match self.find(key) {
            Some(i) => {
                let mut entries: Vec<(String, V)> = Vec::new();
                std::mem::swap(&mut entries, &mut self.entries);
                let (_, v) = entries.remove(i);
                proof {
                    let ii = i as int;
                    assert forall|a: int, b: int|
                        0 <= a < entries@.len() && 0 <= b < entries@.len() && a != b
                            implies #[trigger] entries@[a].0@ != #[trigger] entries@[b].0@ by {
                        let a2 = if a < ii { a } else { a + 1 };
                        let b2 = if b < ii { b } else { b + 1 };
                        assert(pre.key_at(a2) != pre.key_at(b2));
                    }
                }
                self.entries = entries;
                proof {
                    pre.lemma_index_of(i as int);
                    let ii = i as int;
                    assert forall|a: int| 0 <= a < self.entries@.len() implies
                        #[trigger] self.key_at(a) == pre.key_at(if a < ii { a } else { a + 1 }) by {}
                    assert forall|a: int, b: int|
                        0 <= a < self.entries@.len() && 0 <= b < self.entries@.len() && a != b
                            implies #[trigger] self.key_at(a) != #[trigger] self.key_at(b) by {
                        let a2 = if a < ii { a } else { a + 1 };
                        let b2 = if b < ii { b } else { b + 1 };
                        assert(pre.key_at(a2) != pre.key_at(b2));
                    }
                    assert forall|c: Seq<char>| #[trigger] self.has(c) == (pre.has(c) && c != k) by {
                        if pre.has(c) && c != k {
                            let j = pre.index_of(c);
                            if j < ii {
                                assert(self.key_at(j) == c);
                            } else {
                                assert(j != ii);
                                assert(self.key_at(j - 1) == c);
                            }
                        }
                        if self.has(c) {
                            let j = self.index_of(c);
                            let j2 = if j < ii { j } else { j + 1 };
                            assert(pre.key_at(j2) == c);
                            assert(j2 != ii);
                        }
                    }
                    assert forall|c: Seq<char>| self.has(c) implies
                        self.entries@[self.index_of(c)].1 == pre.view().remove(k)[c] by {
                        let j = self.index_of(c);
                        self.lemma_index_of(j);
                        let j2 = if j < ii { j } else { j + 1 };
                        assert(pre.key_at(j2) == c);
                        pre.lemma_index_of(j2);
                    }
                    assert(self.view() =~= pre.view().remove(k));
                }
                Some(v)
            },
            None => {
                proof {
                    assert(self.view() =~= pre.view().remove(k));
                }
                None
            },
        }
    }

    /// The keys, each once, in no particular order.
    pub fn keys(&self) -> (r: Vec<String>)
        ensures
            r@.len() == self.view().dom().len(),
            forall|i: int| 0 <= i < r@.len() ==> self.view().dom().contains(#[trigger] r@[i]@),
            forall|i: int, j: int|
                0 <= i < r@.len() && 0 <= j < r@.len() && i != j ==> #[trigger] r@[i]@
                    != #[trigger] r@[j]@,
            forall|k: Seq<char>|
                self.view().dom().contains(k) ==> exists|i: int| 0 <= i < r@.len() && #[trigger] r@[i]@ == k,
    {
        proof {
            use_type_invariant(self);
            self.lemma_dom_len();
        }
        let n = self.entries.len();
        let mut r: Vec<String> = Vec::new();
        let mut i: usize = 0;
        while i < n
            invariant
                n == self.entries@.len(),
                self.wf(),
                i <= n,
                r@.len() == i,
                forall|j: int| 0 <= j < i ==> #[trigger] r@[j]@ == self.key_at(j),
            decreases n - i,
        {
            r.push(self.entries[i].0.clone());
            i = i + 1;
        }
        proof {
            assert forall|a: int| 0 <= a < r@.len() implies self.view().dom().contains(#[trigger] r@[a]@) by {
                assert(self.key_at(a) == r@[a]@);
            }
            assert forall|a: int, b: int|
                0 <= a < r@.len() && 0 <= b < r@.len() && a != b implies #[trigger] r@[a]@
                    != #[trigger] r@[b]@ by {
                assert(self.key_at(a) != self.key_at(b));
            }
            assert forall|k: Seq<char>| self.view().dom().contains(k) implies exists|a: int|
                0 <= a < r@.len() && #[trigger] r@[a]@ == k by {
                let a = self.index_of(k);
                assert(r@[a]@ == k);
            }
        }
        r
    }

    /// Adds every entry of `other`, replacing the values of keys that are
    /// already here.
    pub fn extend(&mut self, other: StringMap<V>)
        ensures
            final(self).view() == old(self).view().union_prefer_right(other.view()),
    {
        proof {
            use_type_invariant(&other);
        }
        let ghost o = other;
        let StringMap { entries: mut rest } = other;
        while rest.len() > 0
            invariant
                o.wf(),
                rest@ == o.entries@.take(rest@.len() as int),
                rest@.len() <= o.entries@.len(),
                self.view() == old(self).view().union_prefer_right(
                    o.view().restrict(o.keys_from(rest@.len() as int)),
                ),
            decreases rest@.len(),
        {
            let ghost j = (rest@.len() - 1) as int;
            let (k, v) = rest.pop().unwrap();
            proof {
                assert(o.entries@[j] == (k, v));
                o.lemma_index_of(j);
                assert(o.keys_from(j) =~= o.keys_from(j + 1).insert(k@));
            }
            self.insert(k, v);
            proof {
                assert(rest@ =~= o.entries@.take(rest@.len() as int));
                let r1 = o.view().restrict(o.keys_from(j + 1));
                let r0 = o.view().restrict(o.keys_from(j));
                assert(r0 =~= r1.insert(k@, v));
                assert(self.view() =~= old(self).view().union_prefer_right(r0));
            }
        }
        proof {
            assert forall|c: Seq<char>| #[trigger] o.view().dom().contains(c) implies o.keys_from(0).contains(c) by {
                let i = o.index_of(c);
                assert(o.key_at(i) == c);
            }
            assert(o.view().restrict(o.keys_from(0)) =~= o.view());
        }
    }

    /// The keys of the entries from position `start` on.
    pub closed spec fn keys_from(&self, start: int) -> Set<Seq<char>> {
        Set::new(|k: Seq<char>| exists|i: int| start <= i < self.entries@.len() && #[trigger] self.key_at(i) == k)
    }
}

} // verus!
