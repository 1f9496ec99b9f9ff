//! Entity-indexed component storage.
//!
//! Each component kind lives in a `Store<T>`: an association list from
//! entity id to component value, read through a `Map` view.  Entries are
//! kept in insertion order so that every pass over them is deterministic;
//! keys are unique.

use vstd::pervasive::VecAdditionalExecFns;
use vstd::prelude::*;

verus! {

/// Whether association list `s` has an entry with key `k`.
pub open spec fn has_key<T>(s: Seq<(u64, T)>, k: u64) -> bool {
    exists|i: int| 0 <= i < s.len() && (#[trigger] s[i]).0 == k
}

/// The index of the entry with key `k` (meaningful only under `has_key`).
pub open spec fn idx_of<T>(s: Seq<(u64, T)>, k: u64) -> int {
    choose|i: int| 0 <= i < s.len() && (#[trigger] s[i]).0 == k
}

/// No key appears twice.
pub open spec fn keys_unique<T>(s: Seq<(u64, T)>) -> bool {
    forall|i: int, j: int|
        0 <= i < j < s.len() ==> (#[trigger] s[i]).0 != (#[trigger] s[j]).0
}

/// The map an association list denotes.
pub open spec fn assoc_map<T>(s: Seq<(u64, T)>) -> Map<u64, T> {
    Map::new(|k: u64| has_key(s, k), |k: u64| s[idx_of(s, k)].1)
}

/// Under unique keys, two entries with the same key are the same entry.
pub proof fn lemma_key_determines_index<T>(s: Seq<(u64, T)>, a: int, b: int)
    requires
        keys_unique(s),
        0 <= a < s.len(),
        0 <= b < s.len(),
        s[a].0 == s[b].0,
    ensures
        a == b,
{
    if a < b {
        assert(s[a].0 != s[b].0);
    } else if b < a {
        assert(s[b].0 != s[a].0);
    }
}

/// Under unique keys, the entry at index `i` is exactly what the map view
/// holds for its key.
pub proof fn lemma_assoc_at<T>(s: Seq<(u64, T)>, i: int)
    requires
        keys_unique(s),
        0 <= i < s.len(),
    ensures
        has_key(s, s[i].0),
        assoc_map(s).contains_key(s[i].0),
        assoc_map(s)[s[i].0] == s[i].1,
{
    let k = s[i].0;
    assert(has_key(s, k));
    let j = idx_of(s, k);
    assert(0 <= j < s.len() && s[j].0 == k);
    lemma_key_determines_index(s, i, j);
}

/// A key that is absent from the list is absent from the map view.
pub proof fn lemma_assoc_absent<T>(s: Seq<(u64, T)>, k: u64)
    requires
        !has_key(s, k),
    ensures
        !assoc_map(s).contains_key(k),
{
}

/// Appending a fresh key inserts it into the map view.
pub proof fn lemma_assoc_push<T>(s: Seq<(u64, T)>, k: u64, v: T)
    requires
        keys_unique(s),
        !has_key(s, k),
    ensures
        keys_unique(s.push((k, v))),
        assoc_map(s.push((k, v))) == assoc_map(s).insert(k, v),
{
    let s2 = s.push((k, v));
    assert forall|a: int, b: int| 0 <= a < b < s2.len() implies (#[trigger] s2[a]).0 != (
    #[trigger] s2[b]).0 by {
        if b == s.len() {
            assert(s2[a] == s[a]);
            if s[a].0 == k {
                assert(has_key(s, k));
            }
        } else {
            assert(s2[a] == s[a] && s2[b] == s[b]);
        }
    }
    assert forall|k2: u64| #[trigger] has_key(s2, k2) implies k2 == k || has_key(s, k2) by {
        let i = idx_of(s2, k2);
        assert(0 <= i < s2.len() && s2[i].0 == k2);
        if i < s.len() {
            assert(s[i].0 == k2);
        }
    }
    assert forall|k2: u64| k2 == k || has_key(s, k2) implies #[trigger] has_key(s2, k2) by {
        if k2 == k {
            assert(s2[s.len() as int].0 == k);
        } else {
            let i = idx_of(s, k2);
            assert(0 <= i < s.len() && s[i].0 == k2);
            assert(s2[i].0 == k2);
        }
    }
    assert forall|k2: u64| has_key(s2, k2) implies #[trigger] assoc_map(s2)[k2] == assoc_map(
        s,
    ).insert(k, v)[k2] by {
        let i = idx_of(s2, k2);
        assert(0 <= i < s2.len() && s2[i].0 == k2);
        lemma_assoc_at(s2, i);
        if k2 == k {
            lemma_key_determines_index(s2, i, s.len() as int);
            assert(assoc_map(s2)[k2] == v);
        } else {
            assert(i < s.len());
            assert(s[i] == s2[i]);
            lemma_assoc_at(s, i);
        }
    }
    assert(assoc_map(s2) =~= assoc_map(s).insert(k, v));
}

/// Replacing the value at index `i`, key kept, updates the map view at
/// that key.
pub proof fn lemma_assoc_update<T>(s: Seq<(u64, T)>, i: int, v: T)
    requires
        keys_unique(s),
        0 <= i < s.len(),
    ensures
        keys_unique(s.update(i, (s[i].0, v))),
        assoc_map(s.update(i, (s[i].0, v))) == assoc_map(s).insert(s[i].0, v),
{
    let k = s[i].0;
    let s2 = s.update(i, (k, v));
    assert forall|a: int, b: int| 0 <= a < b < s2.len() implies (#[trigger] s2[a]).0 != (
    #[trigger] s2[b]).0 by {
        assert(s2[a].0 == s[a].0 && s2[b].0 == s[b].0);
    }
    assert forall|k2: u64| #[trigger] has_key(s2, k2) == has_key(s, k2) by {
        if has_key(s2, k2) {
            let a = idx_of(s2, k2);
            assert(0 <= a < s2.len() && s2[a].0 == k2);
            assert(s[a].0 == k2);
        }
        if has_key(s, k2) {
            let a = idx_of(s, k2);
            assert(0 <= a < s.len() && s[a].0 == k2);
            assert(s2[a].0 == k2);
        }
    }
    assert forall|k2: u64| has_key(s2, k2) implies #[trigger] assoc_map(s2)[k2] == assoc_map(
        s,
    ).insert(k, v)[k2] by {
        let a = idx_of(s2, k2);
        assert(0 <= a < s2.len() && s2[a].0 == k2);
        lemma_assoc_at(s2, a);
        if k2 == k {
            lemma_key_determines_index(s2, a, i);
            assert(assoc_map(s2)[k2] == v);
        } else {
            assert(a != i);
            assert(s2[a] == s[a]);
            lemma_assoc_at(s, a);
        }
    }
    assert(assoc_map(s2) =~= assoc_map(s).insert(k, v));
}

/// Removing the entry at index `i` removes exactly its key from the map
/// view.
pub proof fn lemma_assoc_remove<T>(s: Seq<(u64, T)>, i: int)
    requires
        keys_unique(s),
        0 <= i < s.len(),
    ensures
        keys_unique(s.remove(i)),
        assoc_map(s.remove(i)) == assoc_map(s).remove(s[i].0),
{
    let k = s[i].0;
    let s2 = s.remove(i);
    assert forall|a: int, b: int| 0 <= a < b < s2.len() implies (#[trigger] s2[a]).0 != (
    #[trigger] s2[b]).0 by {
        let a0 = if a < i { a } else { a + 1 };
        let b0 = if b < i { b } else { b + 1 };
        assert(s2[a] == s[a0] && s2[b] == s[b0]);
    }
    assert forall|k2: u64| #[trigger] has_key(s2, k2) implies has_key(s, k2) && k2 != k by {
        let a = idx_of(s2, k2);
        assert(0 <= a < s2.len() && s2[a].0 == k2);
        let a0 = if a < i { a } else { a + 1 };
        assert(s[a0].0 == k2);
        if k2 == k {
            lemma_key_determines_index(s, a0, i);
            assert(false);
        }
    }
    assert forall|k2: u64| has_key(s, k2) && k2 != k implies #[trigger] has_key(s2, k2) by {
        let a = idx_of(s, k2);
        assert(0 <= a < s.len() && s[a].0 == k2);
        assert(a != i);
        if a < i {
            assert(s2[a].0 == k2);
        } else {
            assert(s2[a - 1] == s[a]);
        }
    }
    assert forall|k2: u64| has_key(s2, k2) implies #[trigger] assoc_map(s2)[k2] == assoc_map(
        s,
    ).remove(k)[k2] by {
        let a = idx_of(s2, k2);
        assert(0 <= a < s2.len() && s2[a].0 == k2);
        lemma_assoc_at(s2, a);
        let a0 = if a < i { a } else { a + 1 };
        assert(s2[a] == s[a0]);
        lemma_assoc_at(s, a0);
    }
    assert(assoc_map(s2) =~= assoc_map(s).remove(k));
}

/// One component kind, indexed by entity id.
pub struct Store<T> {
    pub entries: Vec<(u64, T)>,
}

impl<T: Copy> Store<T> {
    /// Keys are unique, so the association list denotes a map.
    pub open spec fn wf(self) -> bool {
        keys_unique(self.entries@)
    }

    /// An empty store.
    pub fn new() -> (s: Store<T>)
        ensures
            s.wf(),
            s@ == Map::<u64, T>::empty(),
            s.entries@.len() == 0,
    {
        let s = Store { entries: Vec::new() };
        proof {
            assert(s@ =~= Map::<u64, T>::empty());
        }
        s
    }

    /// How many entities have this component.
    pub fn len(&self) -> (n: usize)
        ensures
            n == self.entries@.len(),
    {
        self.entries.len()
    }

    /// The id of the entry at position `i` (insertion order).
    pub fn key_at(&self, i: usize) -> (k: u64)
        requires
            i < self.entries@.len(),
        ensures
            k == self.entries@[i as int].0,
    {
        self.entries[i].0
    }

    /// The component of the entry at position `i`.
    pub fn val_at(&self, i: usize) -> (v: T)
        requires
            i < self.entries@.len(),
        ensures
            v == self.entries@[i as int].1,
    {
        self.entries[i].1
    }

    /// Replace the component at position `i`, keeping its id.
    pub fn set_at(&mut self, i: usize, v: T)
        requires
            old(self).wf(),
            i < old(self).entries@.len(),
        ensures
            final(self).wf(),
            final(self).entries@ == old(self).entries@.update(
                i as int,
                (old(self).entries@[i as int].0, v),
            ),
            final(self)@ == old(self)@.insert(old(self).entries@[i as int].0, v),
    {
        let k = self.entries[i].0;
        self.entries.set(i, (k, v));
        proof {
            lemma_assoc_update(old(self).entries@, i as int, v);
        }
    }

    /// The position of id `k`, if present.
    pub fn find(&self, k: u64) -> (r: Option<usize>)
        ensures
            match r {
                Some(i) => i < self.entries@.len() && self.entries@[i as int].0 == k,
                None => !has_key(self.entries@, k),
            },
    {
        let n = self.entries.len();
        let mut i: usize = 0;
        while i < n
            invariant
                i <= n,
                n == self.entries@.len(),
                forall|j: int| 0 <= j < i ==> (#[trigger] self.entries@[j]).0 != k,
            decreases n - i,
        {
            if self.entries[i].0 == k {
                return Some(i);
            }
            i = i + 1;
        }
        None
    }

    /// Whether an entity with id `k` has this component.
    pub fn contains(&self, k: u64) -> (r: bool)
        requires
            self.wf(),
        ensures
            r == self@.contains_key(k),
    {
        match self.find(k) {
            Some(i) => {
                proof {
                    lemma_assoc_at(self.entries@, i as int);
                }
                true
            },
            None => {
                proof {
                    lemma_assoc_absent(self.entries@, k);
                }
                false
            },
        }
    }

    /// The component of entity `k`, if any.
    pub fn get_copy(&self, k: u64) -> (r: Option<T>)
        requires
            self.wf(),
        ensures
            r == if self@.contains_key(k) {
                Some(self@[k])
            } else {
                None::<T>
            },
    {
        match self.find(k) {
            Some(i) => {
                proof {
                    lemma_assoc_at(self.entries@, i as int);
                }
                Some(self.entries[i].1)
            },
            None => {
                proof {
                    lemma_assoc_absent(self.entries@, k);
                }
                None
            },
        }
    }

    /// Overwrite the component of entity `k`, which must be present.
    pub fn set(&mut self, k: u64, v: T)
        requires
            old(self).wf(),
            old(self)@.contains_key(k),
        ensures
            final(self).wf(),
            final(self)@ == old(self)@.insert(k, v),
            final(self).entries@.len() == old(self).entries@.len(),
            forall|j: int|
                0 <= j < old(self).entries@.len() ==> (#[trigger] final(self).entries@[j]).0
                    == old(self).entries@[j].0,
    {
        match self.find(k) {
            Some(i) => {
                let ghost s0 = self.entries@;
                self.entries.set(i, (k, v));
                proof {
                    assert(s0.update(i as int, (k, v)) == s0.update(i as int, (s0[i as int].0, v)));
                    lemma_assoc_update(s0, i as int, v);
                }
            },
            None => {
                proof {
                    lemma_assoc_absent(self.entries@, k);
                }
            },
        }
    }

    /// Give entity `k` this component; `k` must not already have one.
    pub fn insert_new(&mut self, k: u64, v: T)
        requires
            old(self).wf(),
            !old(self)@.contains_key(k),
        ensures
            final(self).wf(),
            final(self)@ == old(self)@.insert(k, v),
            final(self).entries@ == old(self).entries@.push((k, v)),
    {
        proof {
            if has_key(self.entries@, k) {
                let i = idx_of(self.entries@, k);
                lemma_assoc_at(self.entries@, i);
            }
            lemma_assoc_push(self.entries@, k, v);
        }
        self.entries.push((k, v));
    }

    /// Remove entity `k`'s component, if any.
    pub fn remove_id(&mut self, k: u64)
        requires
            old(self).wf(),
        ensures
            final(self).wf(),
            final(self)@ == old(self)@.remove(k),
    {
        match self.find(k) {
            Some(i) => {
                let ghost s0 = self.entries@;
                self.entries.remove(i);
                proof {
                    lemma_assoc_remove(s0, i as int);
                }
            },
            None => {
                proof {
                    lemma_assoc_absent(self.entries@, k);
                    assert(self@.remove(k) =~= self@);
                }
            },
        }
    }
}

impl<T> View for Store<T> {
    type V = Map<u64, T>;

    open spec fn view(&self) -> Map<u64, T> {
        assoc_map(self.entries@)
    }
}

} // verus!
