//! The chat's open sessions.

use vstd::prelude::*;
use std::collections::HashMap;
use vstd::std_specs::iter::IteratorSpec;

verus! {

broadcast use vstd::std_specs::hash::group_hash_axioms;

/// The open web socket sessions: the socket of each connected client,
/// by client id.
pub struct SessionTable {
    sockets: HashMap<u128, u64>,
}

impl SessionTable {
    /// The socket of each client id.
    pub closed spec fn view(&self) -> Map<u128, u64> {
        self.sockets@
    }

    /// No session yet.
    pub fn new() -> (r: Self)
        ensures
            r.view() == Map::<u128, u64>::empty(),
    {
        SessionTable { sockets: HashMap::new() }
    }

    /// The socket stored under `key`, if any.
    pub fn get(&self, key: u128) -> (r: Option<u64>)
        ensures
            r == (if self.view().dom().contains(key) {
                Some(self.view()[key])
            } else {
                None
            }),
    {
        match self.sockets.get(&key) {
            Some(socket) => Some(*socket),
            None => None,
        }
    }

    /// Stores `value` under `key`, replacing what was stored there.
    pub fn insert(&mut self, key: u128, value: u64)
        ensures
            final(self).view() == old(self).view().insert(key, value),
    {
        self.sockets.insert(key, value);
    }

    /// Removes the session stored under `key` and hands its socket back.
    pub fn remove(&mut self, key: u128) -> (r: Option<u64>)
        ensures
            final(self).view() == old(self).view().remove(key),
            r == (if old(self).view().dom().contains(key) {
                Some(old(self).view()[key])
            } else {
                None
            }),
    {
        self.sockets.remove(&key)
    }

    /// Every session, each once, in no particular order.
    pub fn all(&self) -> (r: Vec<(u128, u64)>)
        ensures
            r@.len() == self.view().dom().len(),
            forall|i: int|
                0 <= i < r@.len() ==> self.view().dom().contains(#[trigger] r@[i].0)
                    && self.view()[r@[i].0] == r@[i].1,
            forall|i: int, j: int|
                0 <= i < r@.len() && 0 <= j < r@.len() && i != j ==> #[trigger] r@[i].0
                    != #[trigger] r@[j].0,
            forall|k: u128|
                self.view().dom().contains(k) ==> exists|i: int| 0 <= i < r@.len() && #[trigger] r@[i].0 == k,
    {
        let ghost m = self.sockets@;
        let ghost s = vstd::std_specs::hash::spec_hash_map_iter(&self.sockets).remaining();
        let mut r: Vec<(u128, u64)> = Vec::new();
        for entry in it: self.sockets.iter()
            invariant
                it.seq() == s,
                r@.len() == it.index(),
                forall|j: int| 0 <= j < it.index() ==> #[trigger] r@[j] == (*s[j].0, *s[j].1),
        {
            let (k, v) = entry;
            r.push((*k, *v));
        }
        proof {
            assert(r@.len() == s.len());
            assert forall|i: int| 0 <= i < r@.len() implies m.dom().contains(#[trigger] r@[i].0)
                && m[r@[i].0] == r@[i].1 by {
                assert(r@[i] == (*s[i].0, *s[i].1));
                assert(m.contains_key(*s[i].0));
            }
            assert forall|i: int, j: int|
                0 <= i < r@.len() && 0 <= j < r@.len() && i != j implies #[trigger] r@[i].0
                    != #[trigger] r@[j].0 by {
                assert(r@[i] == (*s[i].0, *s[i].1));
                assert(r@[j] == (*s[j].0, *s[j].1));
                assert(m.contains_key(*s[i].0) && m[*s[i].0] == *s[i].1);
                assert(m.contains_key(*s[j].0) && m[*s[j].0] == *s[j].1);
                if *s[i].0 == *s[j].0 {
                    assert(s[i] == s[j]);
                }
            }
            assert forall|k: u128| m.dom().contains(k) implies exists|i: int|
                0 <= i < r@.len() && #[trigger] r@[i].0 == k by {
                assert(m.contains_key(k));
                assert(s.contains((&k, &m[k])));
                let i = choose|i: int| 0 <= i < s.len() && s[i] == (&k, &m[k]);
                assert(r@[i] == (*s[i].0, *s[i].1));
            }
        }
        r
    }
}

} // verus!
