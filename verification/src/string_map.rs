//! A map from string keys to values that keeps its entries in insertion order.

use vstd::prelude::*;
use crate::text::str_eq;

verus! {

/// The keys of `entries` are pairwise distinct.
pub open spec fn keys_distinct<V>(entries: Seq<(Seq<char>, V)>) -> bool {
    forall|i: int, j: int|
        #![trigger entries[i], entries[j]]
        0 <= i < entries.len() && 0 <= j < entries.len() && i != j ==> entries[i].0 != entries[j].0
}

/// `entries` has an entry with key `k`.
pub open spec fn has_key<V>(entries: Seq<(Seq<char>, V)>, k: Seq<char>) -> bool {
    exists|i: int| 0 <= i < entries.len() && #[trigger] entries[i].0 == k
}

/// Position of the entry with key `k` (meaningful when `has_key(entries, k)`).
pub open spec fn key_index<V>(entries: Seq<(Seq<char>, V)>, k: Seq<char>) -> int {
    choose|i: int| 0 <= i < entries.len() && #[trigger] entries[i].0 == k
}

/// The value stored under `k`, if any.
pub open spec fn lookup<V>(entries: Seq<(Seq<char>, V)>, k: Seq<char>) -> Option<V> {
    if has_key(entries, k) {
        Some(entries[key_index(entries, k)].1)
    } else {
        None
    }
}

/// The entries after storing `v` under `k`: an existing entry keeps its place and takes
/// the new value, a new key goes to the end.
pub open spec fn insert_entry<V>(entries: Seq<(Seq<char>, V)>, k: Seq<char>, v: V) -> Seq<(Seq<char>, V)> {
    if has_key(entries, k) {
        entries.update(key_index(entries, k), (k, v))
    } else {
        entries.push((k, v))
    }
}

/// The entries after dropping the one with key `k`, if any; the others keep their order.
pub open spec fn remove_entry<V>(entries: Seq<(Seq<char>, V)>, k: Seq<char>) -> Seq<(Seq<char>, V)> {
    if has_key(entries, k) {
        entries.remove(key_index(entries, k))
    } else {
        entries
    }
}

/// With distinct keys, the entry at `i` is the one that key `k` finds.
pub proof fn lemma_key_index<V>(entries: Seq<(Seq<char>, V)>, k: Seq<char>, i: int)
    requires
        keys_distinct(entries),
        0 <= i < entries.len(),
        entries[i].0 == k,
    ensures
        has_key(entries, k),
        key_index(entries, k) == i,
        lookup(entries, k) == Some(entries[i].1),
{
    assert(has_key(entries, k));
    let j = key_index(entries, k);
    assert(entries[j].0 == k);
}

/// After storing `v` under `k`, the keys are still distinct, `k` maps to `v`, and every
/// other key maps to what it mapped to before.
pub proof fn lemma_insert_entry<V>(entries: Seq<(Seq<char>, V)>, k: Seq<char>, v: V)
    requires
        keys_distinct(entries),
    ensures
        keys_distinct(insert_entry(entries, k, v)),
        lookup(insert_entry(entries, k, v), k) == Some(v),
        forall|k2: Seq<char>| k2 != k ==> lookup(#[trigger] insert_entry(entries, k, v), k2) == lookup(entries, k2),
{
    let r = insert_entry(entries, k, v);
    if has_key(entries, k) {
        let i = key_index(entries, k);
        assert(entries[i].0 == k);
        assert(keys_distinct(r));
        lemma_key_index(r, k, i);
        assert forall|k2: Seq<char>| k2 != k implies lookup(r, k2) == lookup(entries, k2) by {
            if has_key(entries, k2) {
                let j = key_index(entries, k2);
                assert(entries[j].0 == k2);
                lemma_key_index(r, k2, j);
            } else {
                if has_key(r, k2) {
                    let j = key_index(r, k2);
                    assert(r[j].0 == k2);
                    assert(entries[j].0 == k2);
                }
            }
        }
    } else {
        let n = entries.len() as int;
        assert forall|a: int, b: int|
            #![trigger r[a], r[b]]
            0 <= a < r.len() && 0 <= b < r.len() && a != b implies r[a].0 != r[b].0 by {
            if a == n {
                assert(r[b] == entries[b]);
            } else if b == n {
                assert(r[a] == entries[a]);
            } else {
                assert(r[a] == entries[a] && r[b] == entries[b]);
            }
        }
        lemma_key_index(r, k, n);
        assert forall|k2: Seq<char>| k2 != k implies lookup(r, k2) == lookup(entries, k2) by {
            if has_key(entries, k2) {
                let j = key_index(entries, k2);
                assert(entries[j].0 == k2);
                assert(r[j] == entries[j]);
                lemma_key_index(r, k2, j);
            } else {
                if has_key(r, k2) {
                    let j = key_index(r, k2);
                    assert(r[j].0 == k2);
                    assert(r[j] == entries[j]);
                }
            }
        }
    }
}

/// After dropping `k`, the keys are still distinct, `k` maps to nothing, and every other
/// key maps to what it mapped to before.
pub proof fn lemma_remove_entry<V>(entries: Seq<(Seq<char>, V)>, k: Seq<char>)
    requires
        keys_distinct(entries),
    ensures
        keys_distinct(remove_entry(entries, k)),
        lookup(remove_entry(entries, k), k) is None,
        forall|k2: Seq<char>| k2 != k ==> lookup(#[trigger] remove_entry(entries, k), k2) == lookup(entries, k2),
{
    let r = remove_entry(entries, k);
    if has_key(entries, k) {
        let i = key_index(entries, k);
        assert(entries[i].0 == k);
        assert forall|a: int, b: int|
            #![trigger r[a], r[b]]
            0 <= a < r.len() && 0 <= b < r.len() && a != b implies r[a].0 != r[b].0 by {
            let a2 = if a < i { a } else { a + 1 };
            let b2 = if b < i { b } else { b + 1 };
            assert(r[a] == entries[a2]);
            assert(r[b] == entries[b2]);
        }
        if has_key(r, k) {
            let j = key_index(r, k);
            assert(r[j].0 == k);
            let j2 = if j < i { j } else { j + 1 };
            assert(r[j] == entries[j2]);
        }
        assert forall|k2: Seq<char>| k2 != k implies lookup(r, k2) == lookup(entries, k2) by {
            if has_key(entries, k2) {
                let j = key_index(entries, k2);
                assert(entries[j].0 == k2);
                assert(j != i);
                let j2 = if j < i { j } else { j - 1 };
                assert(r[j2] == entries[j]);
                lemma_key_index(r, k2, j2);
            } else {
                if has_key(r, k2) {
                    let j = key_index(r, k2);
                    assert(r[j].0 == k2);
                    let j2 = if j < i { j } else { j + 1 };
                    assert(r[j] == entries[j2]);
                }
            }
        }
    }
}

/// A map from string keys to values, kept in insertion order.
pub struct StringMap<V> {
    entries: Vec<(String, V)>,
}

impl<V> View for StringMap<V> {
    type V = Seq<(Seq<char>, V)>;

    closed spec fn view(&self) -> Seq<(Seq<char>, V)> {
        self.entries@.map_values(|e: (String, V)| (e.0@, e.1))
    }
}

impl<V> StringMap<V> {
    /// The map's invariant: its keys are distinct. `use_type_invariant` on a map brings
    /// it into a proof.
    #[verifier::type_invariant]
    pub open spec fn wf(self) -> bool {
        keys_distinct(self@)
    }

    /// An empty map.
    pub fn new() -> (m: Self)
        ensures
            m@ == Seq::<(Seq<char>, V)>::empty(),
            keys_distinct(m@),
    {
        let m = StringMap { entries: Vec::new() };
        assert(m@ =~= Seq::<(Seq<char>, V)>::empty());
        m
    }

    /// The number of entries.
    pub fn len(&self) -> (n: usize)
        ensures
            n == self@.len(),
            keys_distinct(self@),
    {
        proof {
            use_type_invariant(self);
        }
        self.entries.len()
    }

    /// Whether the map has no entry.
    pub fn is_empty(&self) -> (b: bool)
        ensures
            b == (self@.len() == 0),
    {
        self.entries.len() == 0
    }

    /// Position of the entry with key `k`, if any.
    fn position(&self, k: &str) -> (r: Option<usize>)
        ensures
            match r {
                Some(i) => i < self@.len() && self@[i as int].0 == k@ && key_index(self@, k@) == i
                    && has_key(self@, k@),
                None => !has_key(self@, k@),
            },
    {
        proof {
            use_type_invariant(self);
        }
        let n = self.entries.len();
        let mut i: usize = 0;
        while i < n
            invariant
                n == self.entries@.len(),
                n == self@.len(),
                keys_distinct(self@),
                i <= n,
                forall|j: int| 0 <= j < i ==> self@[j].0 != k@,
            decreases n - i,
        {
            assert(self@[i as int].0 == self.entries@[i as int].0@);
            if str_eq(self.entries[i].0.as_str(), k) {
                proof {
                    lemma_key_index(self@, k@, i as int);
                }
                return Some(i);
            }
            i = i + 1;
        }
        proof {
            if has_key(self@, k@) {
                let j = key_index(self@, k@);
                assert(self@[j].0 == k@);
            }
        }
        None
    }

    /// The value stored under `k`, if any.
    pub fn get(&self, k: &str) -> (r: Option<&V>)
        ensures
            r matches Some(v) ==> lookup(self@, k@) == Some(*v),
            r is None ==> lookup(self@, k@) is None,
    {
        match self.position(k) {
            Some(i) => Some(&self.entries[i].1),
            None => None,
        }
    }

    /// Whether some entry has key `k`.
    pub fn contains_key(&self, k: &str) -> (b: bool)
        ensures
            b == has_key(self@, k@),
    {
        self.position(k).is_some()
    }

    /// Stores `v` under `k` and hands back the value that `k` held before, if any.
    pub fn insert(&mut self, k: String, v: V) -> (r: Option<V>)
        ensures
            final(self)@ == insert_entry(old(self)@, k@, v),
            keys_distinct(old(self)@),
            keys_distinct(final(self)@),
            r == lookup(old(self)@, k@),
    {
        proof {
            use_type_invariant(&*self);
            lemma_insert_entry(self@, k@, v);
        }
        let ghost old_view = self@;
        let pos = self.position(k.as_str());
        let mut entries = Vec::new();
        std::mem::swap(&mut entries, &mut self.entries);
        match pos {
            Some(i) => {
                let ghost kv = k@;
                let (_, old_v) = entries.remove(i);
                entries.insert(i, (k, v));
                proof {
                    assert(entries@.map_values(|e: (String, V)| (e.0@, e.1)) =~= old_view.update(i as int, (kv, v)));
                }
                self.entries = entries;
                Some(old_v)
            },
            None => {
                let ghost kv = k@;
                entries.push((k, v));
                proof {
                    assert(entries@.map_values(|e: (String, V)| (e.0@, e.1)) =~= old_view.push((kv, v)));
                }
                self.entries = entries;
                None
            },
        }
    }

    /// Drops the entry with key `k` and hands back its value, if there was one.
    pub fn remove(&mut self, k: &str) -> (r: Option<V>)
        ensures
            final(self)@ == remove_entry(old(self)@, k@),
            keys_distinct(old(self)@),
            keys_distinct(final(self)@),
            r == lookup(old(self)@, k@),
    {
        proof {
            use_type_invariant(&*self);
            lemma_remove_entry(self@, k@);
        }
        let ghost old_view = self@;
        match self.position(k) {
            Some(i) => {
                let mut entries = Vec::new();
                std::mem::swap(&mut entries, &mut self.entries);
                let (_, old_v) = entries.remove(i);
                proof {
                    assert(entries@.map_values(|e: (String, V)| (e.0@, e.1)) =~= old_view.remove(i as int));
                }
                self.entries = entries;
                Some(old_v)
            },
            None => None,
        }
    }
}

impl StringMap<String> {
    /// The stored values, in entry order.
    pub fn values(&self) -> (r: Vec<String>)
        ensures
            r@.len() == self@.len(),
            forall|i: int| 0 <= i < r@.len() ==> #[trigger] r@[i] == self@[i].1,
    {
        let mut r: Vec<String> = Vec::new();
        let n = self.entries.len();
        let mut i: usize = 0;
        while i < n
            invariant
                n == self.entries@.len(),
                n == self@.len(),
                i <= n,
                r@.len() == i,
                forall|j: int| 0 <= j < i ==> #[trigger] r@[j] == self@[j].1,
            decreases n - i,
        {
            assert(self@[i as int].1 == self.entries@[i as int].1);
            r.push(self.entries[i].1.clone());
            i = i + 1;
        }
        r
    }
}

} // verus!
