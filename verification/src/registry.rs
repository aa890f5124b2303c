//! A small keyed store backed by a vector of entries, where no key occurs twice.
//! Its model is a map from the view of a key to the value stored under it;
//! inserting under a key that is present replaces the value.
use vstd::prelude::*;

use crate::exchanges::exchange::exchange_name::ExchangeName;

verus! {

/// Keys that can be compared at run time in agreement with their views.
pub trait RegistryKey: View + Sized {
    fn same_key(&self, other: &Self) -> (r: bool)
        ensures
            r == (self@ == other@),
    ;
}

impl RegistryKey for String {
    fn same_key(&self, other: &Self) -> (r: bool) {
        *self == *other
    }
}

impl RegistryKey for (ExchangeName, String) {
    fn same_key(&self, other: &Self) -> (r: bool) {
        self.0 == other.0 && self.1 == other.1
    }
}

/// The map that a sequence of entries stands for: later entries win.
pub open spec fn entries_map<K: View, V>(entries: Seq<(K, V)>) -> Map<K::V, V>
    decreases entries.len(),
{
    if entries.len() == 0 {
        Map::empty()
    } else {
        entries_map(entries.drop_last()).insert(entries.last().0@, entries.last().1)
    }
}

/// No two entries share the view of their key.
pub open spec fn keys_distinct<K: View, V>(entries: Seq<(K, V)>) -> bool {
    forall|i: int, j: int|
        0 <= i < j < entries.len() ==> #[trigger] entries[i].0@ != #[trigger] entries[j].0@
}

/// A key is in the map exactly when some entry carries it.
pub proof fn lemma_entries_map_dom<K: View, V>(entries: Seq<(K, V)>, k: K::V)
    ensures
        entries_map(entries).dom().contains(k) <==> exists|i: int|
            0 <= i < entries.len() && #[trigger] entries[i].0@ == k,
    decreases entries.len(),
{
    if entries.len() > 0 {
        let init = entries.drop_last();
        lemma_entries_map_dom(init, k);
        if entries_map(entries).dom().contains(k) && entries.last().0@ != k {
            let i: int = choose|i: int| 0 <= i < init.len() && #[trigger] init[i].0@ == k;
            assert(entries[i].0@ == k);
        }
        if exists|i: int| 0 <= i < entries.len() && #[trigger] entries[i].0@ == k {
            let i: int = choose|i: int| 0 <= i < entries.len() && #[trigger] entries[i].0@ == k;
            if i < entries.len() - 1 {
                assert(init[i].0@ == k);
            }
        }
    }
}

/// Replacing the entry that holds a key replaces the value in the map.
pub proof fn lemma_entries_map_update<K: View, V>(entries: Seq<(K, V)>, i: int, e: (K, V))
    requires
        keys_distinct(entries),
        0 <= i < entries.len(),
        entries[i].0@ == e.0@,
    ensures
        entries_map(entries.update(i, e)) == entries_map(entries).insert(e.0@, e.1),
    decreases entries.len(),
{
    let updated = entries.update(i, e);
    if i == entries.len() - 1 {
        assert(updated.drop_last() =~= entries.drop_last());
        assert(entries_map(updated) =~= entries_map(entries).insert(e.0@, e.1));
    } else {
        let init = entries.drop_last();
        assert(updated.drop_last() =~= init.update(i, e));
        lemma_entries_map_update(init, i, e);
        assert(entries.last().0@ != e.0@);
        assert(entries_map(updated) =~= entries_map(entries).insert(e.0@, e.1));
    }
}

/// The map of entries with distinct keys is finite and has one key per entry.
pub proof fn lemma_entries_map_len<K: View, V>(entries: Seq<(K, V)>)
    requires
        keys_distinct(entries),
    ensures
        entries_map(entries).dom().finite(),
        entries_map(entries).dom().len() == entries.len(),
    decreases entries.len(),
{
    if entries.len() > 0 {
        let init = entries.drop_last();
        assert(keys_distinct(init)) by {
            assert forall|i: int, j: int| 0 <= i < j < init.len() implies #[trigger] init[i].0@
                != #[trigger] init[j].0@ by {
                assert(entries[i].0@ != entries[j].0@);
            }
        }
        lemma_entries_map_len(init);
        let k = entries.last().0@;
        lemma_entries_map_dom(init, k);
        if entries_map(init).dom().contains(k) {
            let i: int = choose|i: int| 0 <= i < init.len() && #[trigger] init[i].0@ == k;
            assert(entries[i].0@ != entries[entries.len() - 1].0@);
        }
        assert(entries_map(entries).dom() =~= entries_map(init).dom().insert(k));
    }
}

/// Keyed store: entries with pairwise distinct keys.
pub struct Registry<K: View, V> {
    entries: Vec<(K, V)>,
}

impl<K: View, V> View for Registry<K, V> {
    type V = Map<K::V, V>;

    open spec fn view(&self) -> Map<K::V, V> {
        entries_map(self.entry_seq())
    }
}

impl<K: View, V> Registry<K, V> {
    /// The entries in the order in which their keys were first inserted.
    pub closed spec fn entry_seq(&self) -> Seq<(K, V)> {
        self.entries@
    }

    #[verifier::type_invariant]
    spec fn keys_never_repeat(&self) -> bool {
        keys_distinct(self.entries@)
    }
}

impl<K: RegistryKey, V> Registry<K, V> {
    pub fn new() -> (r: Self)
        ensures
            r@ == Map::<K::V, V>::empty(),
            r.entry_seq().len() == 0,
    {
        Registry { entries: Vec::new() }
    }

    /// Position of the entry holding `key`, if any.
    fn position(&self, key: &K) -> (r: Option<usize>)
        ensures
            match r {
                Some(i) => i < self.entry_seq().len() && self.entry_seq()[i as int].0@ == key@,
                None => forall|j: int|
                    0 <= j < self.entry_seq().len() ==> #[trigger] self.entry_seq()[j].0@ != key@,
            },
    {
        let mut i: usize = 0;
        while i < self.entries.len()
            invariant
                i <= self.entries@.len(),
                forall|j: int| 0 <= j < i ==> #[trigger] self.entries@[j].0@ != key@,
            decreases self.entries@.len() - i,
        {
            if self.entries[i].0.same_key(key) {
                return Some(i);
            }
            i = i + 1;
        }
        None
    }

    /// Whether some entry is stored under `key`.
    pub fn contains_key(&self, key: &K) -> (r: bool)
        ensures
            r == self@.dom().contains(key@),
    {
        proof {
            lemma_entries_map_dom(self.entry_seq(), key@);
        }
        self.position(key).is_some()
    }

    /// Stores `value` under `key`, replacing a value already stored there.
    pub fn insert(&mut self, key: K, value: V)
        ensures
            final(self)@ == old(self)@.insert(key@, value),
    {
        proof {
            use_type_invariant(&*self);
        }
        let found = self.position(&key);
        assert(keys_distinct(self.entries@));
        let ghost before = self.entry_seq();
        let mut entries: Vec<(K, V)> = Vec::new();
        std::mem::swap(&mut entries, &mut self.entries);
        let ghost pre = entries@;
        match found {
            Some(i) => {
                proof {
                    lemma_entries_map_update(pre, i as int, (key, value));
                }
                entries.set(i, (key, value));
                assert(entries@ == pre.update(i as int, (key, value)));
                assert(keys_distinct(entries@)) by {
                    assert forall|a: int, b: int| 0 <= a < b < entries@.len() implies
                        #[trigger] entries@[a].0@ != #[trigger] entries@[b].0@ by {
                        assert(pre[a].0@ != pre[b].0@);
                    }
                }
            },
            None => {
                entries.push((key, value));
                assert(entries@.drop_last() =~= pre);
                assert(keys_distinct(entries@)) by {
                    assert forall|a: int, b: int| 0 <= a < b < entries@.len() implies
                        #[trigger] entries@[a].0@ != #[trigger] entries@[b].0@ by {
                        if b < pre.len() {
                            assert(pre[a].0@ != pre[b].0@);
                        } else {
                            assert(before[a].0@ != key@);
                        }
                    }
                }
            },
        }
        self.entries = entries;
    }

    /// The stored entries, each key once.
    pub fn entries(&self) -> (r: &Vec<(K, V)>)
        ensures
            r@ == self.entry_seq(),
            entries_map(r@) == self@,
            keys_distinct(r@),
    {
        proof {
            use_type_invariant(self);
        }
        &self.entries
    }

    /// Number of distinct keys stored.
    pub fn len(&self) -> (r: usize)
        ensures
            r == self.entry_seq().len(),
            r == self@.dom().len(),
            self@.dom().finite(),
    {
        proof {
            use_type_invariant(self);
            lemma_entries_map_len(self.entries@);
        }
        self.entries.len()
    }
}

} // verus!
