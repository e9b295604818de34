//! A small verified association map: the storage for each kind of key the
//! tip jar keeps.

use vstd::prelude::*;
use crate::types::SameKey;

verus! {

/// A finite map from keys to values, held as a list of distinct keys with
/// their values.
#[verifier::reject_recursive_types(K)]
pub struct KeyMap<K, V> {
    entries: Vec<(K, V)>,
    model: Ghost<Map<K, V>>,
}

impl<K, V> View for KeyMap<K, V> {
    type V = Map<K, V>;

    closed spec fn view(&self) -> Map<K, V> {
        self.model@
    }
}

impl<K: SameKey + Copy, V: Copy> KeyMap<K, V> {
    /// The list holds each key once, and holds exactly the map's entries.
    pub closed spec fn wf(&self) -> bool {
        &&& forall|i: int, j: int|
            0 <= i < j < self.entries@.len() ==> #[trigger] self.entries@[i].0
                != #[trigger] self.entries@[j].0
        &&& forall|i: int|
            0 <= i < self.entries@.len() ==> {
                &&& self.model@.contains_key(#[trigger] self.entries@[i].0)
                &&& self.model@[self.entries@[i].0] == self.entries@[i].1
            }
        &&& forall|k: K|
            #[trigger] self.model@.contains_key(k) ==> exists|i: int|
                0 <= i < self.entries@.len() && #[trigger] self.entries@[i].0 == k
    }

    /// An empty map.
    pub fn new() -> (r: Self)
        ensures
            r.wf(),
            r@ == Map::<K, V>::empty(),
    {
        KeyMap { entries: Vec::new(), model: Ghost(Map::empty()) }
    }

    /// The position of `key` in the list, if it is there.
    fn find(&self, key: &K) -> (r: Option<usize>)
        requires
            self.wf(),
        ensures
            match r {
                Some(i) => i < self.entries@.len() && self.entries@[i as int].0 == *key,
                None => !self@.contains_key(*key),
            },
    {
        let mut i: usize = 0;
        while i < self.entries.len()
            invariant
                self.wf(),
                i <= self.entries@.len(),
                forall|j: int| 0 <= j < i ==> self.entries@[j].0 != *key,
            decreases self.entries@.len() - i,
        {
            if self.entries[i].0.same_key(key) {
                return Some(i);
            }
            i = i + 1;
        }
        None
    }

    /// The value stored under `key`, if any.
    pub fn get(&self, key: &K) -> (r: Option<V>)
        requires
            self.wf(),
        ensures
            r == (if self@.contains_key(*key) { Some(self@[*key]) } else { None::<V> }),
    {
        match self.find(key) {
            Some(i) => Some(self.entries[i].1),
            None => None,
        }
    }

    /// Whether a value is stored under `key`.
    pub fn contains(&self, key: &K) -> (r: bool)
        requires
            self.wf(),
        ensures
            r == self@.contains_key(*key),
    {
        self.find(key).is_some()
    }

    /// Stores `value` under `key`, replacing what was there.
    pub fn insert(&mut self, key: K, value: V)
        requires
            old(self).wf(),
        ensures
            final(self).wf(),
            final(self)@ == old(self)@.insert(key, value),
    {
        let ghost old_entries = self.entries@;
        let ghost new_model = self.model@.insert(key, value);
        match self.find(&key) {
            Some(i) => {
                self.entries.set(i, (key, value));
                self.model = Ghost(new_model);
                assert forall|k: K| #[trigger] new_model.contains_key(k) implies exists|j: int|
                    0 <= j < self.entries@.len() && #[trigger] self.entries@[j].0 == k by {
                    if k != key {
                        let j = choose|j: int| 0 <= j < old_entries.len() && #[trigger] old_entries[j].0 == k;
                        assert(self.entries@[j].0 == k);
                    } else {
                        assert(self.entries@[i as int].0 == k);
                    }
                }
            },
            None => {
                self.entries.push((key, value));
                self.model = Ghost(new_model);
                assert forall|k: K| #[trigger] new_model.contains_key(k) implies exists|j: int|
                    0 <= j < self.entries@.len() && #[trigger] self.entries@[j].0 == k by {
                    if k != key {
                        let j = choose|j: int| 0 <= j < old_entries.len() && #[trigger] old_entries[j].0 == k;
                        assert(self.entries@[j].0 == k);
                    } else {
                        assert(self.entries@[old_entries.len() as int].0 == k);
                    }
                }
            },
        }
    }

    /// Removes whatever is stored under `key`.
    pub fn remove(&mut self, key: &K)
        requires
            old(self).wf(),
        ensures
            final(self).wf(),
            final(self)@ == old(self)@.remove(*key),
    {
        let ghost old_entries = self.entries@;
        let ghost new_model = self.model@.remove(*key);
        match self.find(key) {
            Some(i) => {
                self.entries.remove(i);
                self.model = Ghost(new_model);
                assert(forall|j: int| 0 <= j < self.entries@.len() ==>
                    #[trigger] self.entries@[j] == (if j < i { old_entries[j] } else { old_entries[j + 1] }));
                assert forall|k: K| #[trigger] new_model.contains_key(k) implies exists|j: int|
                    0 <= j < self.entries@.len() && #[trigger] self.entries@[j].0 == k by {
                    let j = choose|j: int| 0 <= j < old_entries.len() && #[trigger] old_entries[j].0 == k;
                    if j < i {
                        assert(self.entries@[j].0 == k);
                    } else {
                        assert(self.entries@[j - 1].0 == k);
                    }
                }
                assert forall|a: int, b: int|
                    0 <= a < b < self.entries@.len() implies #[trigger] self.entries@[a].0
                        != #[trigger] self.entries@[b].0 by {
                    let oa = if a < i { a } else { a + 1 };
                    let ob = if b < i { b } else { b + 1 };
                    assert(old_entries[oa].0 != old_entries[ob].0);
                }
            },
            None => {
                assert(new_model =~= self.model@);
            },
        }
    }
}

} // verus!
