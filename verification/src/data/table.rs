//! A small table from characters to values.
//!
//! The table stands for a map. It keeps its entries in the order in which
//! their keys first appeared, and finds the value of a key by a scan.

use crate::data::fish_id::{FishId, FishIdView};
use crate::search::{last_index, lemma_last_index, lemma_last_index_is, lemma_last_index_none};
use vstd::prelude::*;

verus! {

/// The keys and values of a sequence of entries.
pub open spec fn entries_view<V>(s: Seq<(FishId, V)>) -> Seq<(FishIdView, V)> {
    Seq::new(s.len(), |i: int| (s[i].0@, s[i].1))
}

/// The map that a sequence of entries stands for: a later entry overrides an
/// earlier one of the same key.
pub open spec fn entries_map<V>(e: Seq<(FishIdView, V)>) -> Map<FishIdView, V>
    decreases e.len(),
{
    if e.len() == 0 {
        Map::empty()
    } else {
        entries_map(e.drop_last()).insert(e.last().0, e.last().1)
    }
}

/// The predicate "the entry at this position has the key `key`".
pub open spec fn entry_has_key<V>(e: Seq<(FishIdView, V)>, key: FishIdView) -> spec_fn(int) -> bool {
    |i: int| e[i].0 == key
}

/// A key is in the map exactly where an entry has it, and its value is that
/// of the last such entry.
pub proof fn lemma_entries_lookup<V>(e: Seq<(FishIdView, V)>, key: FishIdView)
    ensures
        match last_index(e.len() as int, entry_has_key(e, key)) {
            Some(k) => entries_map(e).dom().contains(key) && entries_map(e)[key] == e[k].1,
            None => !entries_map(e).dom().contains(key),
        },
    decreases e.len(),
{
    if e.len() > 0 {
        let rest = e.drop_last();
        lemma_entries_lookup(rest, key);
        let p = entry_has_key(e, key);
        let q = entry_has_key(rest, key);
        if !p(e.len() - 1) {
            lemma_last_index(rest.len() as int, q);
            lemma_last_index(rest.len() as int, p);
            match last_index(rest.len() as int, q) {
                Some(k) => {
                    assert(p(k));
                    assert forall|j: int| k < j < rest.len() implies !#[trigger] p(j) by {
                        assert(!q(j));
                    }
                    lemma_last_index_is(rest.len() as int, p, k);
                },
                None => {
                    assert forall|j: int| 0 <= j < rest.len() implies !#[trigger] p(j) by {
                        assert(!q(j));
                    }
                    lemma_last_index_none(rest.len() as int, p);
                },
            }
        }
    }
}

/// Overwriting the last entry of a key is an insertion into the map.
pub proof fn lemma_entries_update<V>(e: Seq<(FishIdView, V)>, key: FishIdView, k: int, v: V)
    requires
        0 <= k < e.len(),
        e[k].0 == key,
        forall|j: int| k < j < e.len() ==> (#[trigger] e[j]).0 != key,
    ensures
        entries_map(e.update(k, (key, v))) == entries_map(e).insert(key, v),
    decreases e.len(),
{
    let updated = e.update(k, (key, v));
    let rest = e.drop_last();
    if k == e.len() - 1 {
        assert(updated.drop_last() =~= rest);
        assert(entries_map(updated) =~= entries_map(e).insert(key, v));
    } else {
        assert(updated.drop_last() =~= rest.update(k, (key, v)));
        assert(updated.last() == e.last());
        assert forall|j: int| k < j < rest.len() implies (#[trigger] rest[j]).0 != key by {
            assert(rest[j] == e[j]);
        }
        lemma_entries_update(rest, key, k, v);
        assert(e.last().0 != key);
        assert(entries_map(updated) =~= entries_map(e).insert(key, v));
    }
}

/// Every key of the map is the key of an entry, and the other way round.
pub proof fn lemma_entries_dom<V>(e: Seq<(FishIdView, V)>)
    ensures
        forall|key: FishIdView| #[trigger]
            entries_map(e).dom().contains(key) <==> exists|i: int|
                0 <= i < e.len() && (#[trigger] e[i]).0 == key,
        entries_map(e).dom().finite(),
    decreases e.len(),
{
    if e.len() > 0 {
        let rest = e.drop_last();
        lemma_entries_dom(rest);
        assert forall|key: FishIdView| #[trigger]
            entries_map(e).dom().contains(key) <==> exists|i: int|
                0 <= i < e.len() && (#[trigger] e[i]).0 == key by {
            if entries_map(e).dom().contains(key) {
                if key == e.last().0 {
                    assert(e[e.len() - 1].0 == key);
                } else {
                    let i = choose|i: int| 0 <= i < rest.len() && (#[trigger] rest[i]).0 == key;
                    assert(e[i].0 == key);
                }
            }
            if exists|i: int| 0 <= i < e.len() && (#[trigger] e[i]).0 == key {
                let i = choose|i: int| 0 <= i < e.len() && (#[trigger] e[i]).0 == key;
                if i < rest.len() {
                    assert(rest[i].0 == key);
                }
            }
        }
    }
}

/// A table from characters to values of type `V`.
#[derive(Debug, Clone)]
pub struct FishTable<V> {
    entries: Vec<(FishId, V)>,
}

impl<V> View for FishTable<V> {
    type V = Map<FishIdView, V>;

    closed spec fn view(&self) -> Map<FishIdView, V> {
        entries_map(entries_view(self.entries@))
    }
}

impl<V: Copy> FishTable<V> {
    /// The keys of the entries, in order. A key can stand here more than
    /// once only in a table that was not built by `new` and `set`.
    pub closed spec fn keys(&self) -> Seq<FishIdView> {
        Seq::new(self.entries@.len(), |i: int| self.entries@[i].0@)
    }

    /// The keys of the entries are the keys of the map.
    pub proof fn lemma_keys(&self)
        ensures
            forall|key: FishIdView| #[trigger]
                self@.dom().contains(key) <==> exists|i: int|
                    0 <= i < self.keys().len() && #[trigger] self.keys()[i] == key,
            self@.dom().finite(),
    {
        let e = entries_view(self.entries@);
        lemma_entries_dom(e);
        assert forall|key: FishIdView| #[trigger]
            self@.dom().contains(key) <==> exists|i: int|
                0 <= i < self.keys().len() && #[trigger] self.keys()[i] == key by {
            if self@.dom().contains(key) {
                let i = choose|i: int| 0 <= i < e.len() && (#[trigger] e[i]).0 == key;
                assert(self.keys()[i] == key);
            }
            if exists|i: int| 0 <= i < self.keys().len() && #[trigger] self.keys()[i] == key {
                let i = choose|i: int| 0 <= i < self.keys().len() && #[trigger] self.keys()[i] == key;
                assert(e[i].0 == key);
            }
        }
    }

    /// An empty table.
    pub fn new() -> (t: FishTable<V>)
        ensures
            t@ == Map::<FishIdView, V>::empty(),
            t.keys().len() == 0,
    {
        let t = FishTable { entries: Vec::new() };
        assert(entries_view(t.entries@) =~= Seq::empty());
        t
    }

    /// The number of entries.
    pub fn len(&self) -> (r: usize)
        ensures
            r == self.keys().len(),
    {
        self.entries.len()
    }

    /// The key of the entry at `index`.
    pub fn key_at(&self, index: usize) -> (r: &FishId)
        requires
            index < self.keys().len(),
        ensures
            r@ == self.keys()[index as int],
    {
        &self.entries[index].0
    }

    /// The position of the last entry with the key `key`.
    fn find(&self, key: &FishId) -> (r: Option<usize>)
        ensures
            match r {
                Some(k) => k < self.entries.len() && last_index(
                    self.entries.len() as int,
                    entry_has_key(entries_view(self.entries@), key@),
                ) == Some(k as int),
                None => last_index(
                    self.entries.len() as int,
                    entry_has_key(entries_view(self.entries@), key@),
                ) is None,
            },
    {
        let ghost ev = entries_view(self.entries@);
        let ghost p = entry_has_key(ev, key@);
        let mut i: usize = self.entries.len();
        while i > 0
            invariant
                i <= self.entries.len(),
                ev == entries_view(self.entries@),
                p == entry_has_key(ev, key@),
                forall|j: int| i <= j < self.entries.len() ==> !#[trigger] p(j),
            decreases i,
        {
            i -= 1;
            if self.entries[i].0.same_as(key) {
                proof {
                    assert(p(i as int));
                    lemma_last_index_is(self.entries.len() as int, p, i as int);
                }
                return Some(i);
            }
            assert(!p(i as int));
        }
        proof {
            lemma_last_index_none(self.entries.len() as int, p);
        }
        None
    }

    /// The value of `key`, if it has one.
    pub fn get(&self, key: &FishId) -> (r: Option<V>)
        ensures
            r == if self@.dom().contains(key@) {
                Some(self@[key@])
            } else {
                None
            },
    {
        proof {
            lemma_entries_lookup(entries_view(self.entries@), key@);
        }
        match self.find(key) {
            Some(k) => Some(self.entries[k].1),
            None => None,
        }
    }

    /// Gives `key` the value `value`.
    pub fn set(&mut self, key: FishId, value: V)
        ensures
            final(self)@ == old(self)@.insert(key@, value),
    {
        let ghost before = entries_view(self.entries@);
        proof {
            lemma_last_index(before.len() as int, entry_has_key(before, key@));
        }
        match self.find(&key) {
            Some(k) => {
                let ghost kv = key@;
                self.entries.set(k, (key, value));
                proof {
                    assert forall|j: int| k < j < before.len() implies (#[trigger] before[j]).0
                        != kv by {
                        assert(!entry_has_key(before, kv)(j));
                    }
                    lemma_entries_update(before, kv, k as int, value);
                    assert(entries_view(self.entries@) =~= before.update(k as int, (kv, value)));
                }
            },
            None => {
                let ghost kv = key@;
                self.entries.push((key, value));
                proof {
                    let after = entries_view(self.entries@);
                    assert(after.drop_last() =~= before);
                    assert(after.last() == (kv, value));
                }
            },
        }
    }
}

} // verus!
