//! Named integer variables of one conversation, and the record of a change.
//!
//! A store starts empty. A variable that was never written reads as zero. The
//! only way to write is to add a delta; a sum that leaves the range of `i32`
//! stops at the nearest bound.

use crate::search::{last_index, lemma_last_index, lemma_last_index_is, lemma_last_index_none};
use vstd::prelude::*;

verus! {

/// `v`, brought into the range of `i32`.
pub open spec fn clamp_i32(v: int) -> int {
    if v < i32::MIN {
        i32::MIN as int
    } else if v > i32::MAX {
        i32::MAX as int
    } else {
        v
    }
}

/// The value of `name` in `vars`: zero for a variable that was never written.
pub open spec fn value_of(vars: Map<Seq<char>, int>, name: Seq<char>) -> int {
    if vars.dom().contains(name) {
        vars[name]
    } else {
        0
    }
}

/// The value that `name` has after `delta` was added to it.
pub open spec fn value_after(vars: Map<Seq<char>, int>, name: Seq<char>, delta: int) -> int {
    clamp_i32(value_of(vars, name) + delta)
}

/// The store after `delta` was added to `name`.
pub open spec fn apply_delta(vars: Map<Seq<char>, int>, name: Seq<char>, delta: int) -> Map<
    Seq<char>,
    int,
> {
    vars.insert(name, value_after(vars, name, delta))
}

/// A change of one variable.
#[derive(Clone, Debug, PartialEq, Eq)]
pub enum DialogueEvent {
    VariableChanged { name: String, old_value: i32, new_value: i32 },
}

/// The mathematical value of a [`DialogueEvent`].
pub enum EventView {
    VariableChanged { name: Seq<char>, old_value: int, new_value: int },
}

impl EventView {
    /// The variable that changed.
    pub open spec fn name(self) -> Seq<char> {
        match self {
            EventView::VariableChanged { name, .. } => name,
        }
    }
}

impl View for DialogueEvent {
    type V = EventView;

    open spec fn view(&self) -> EventView {
        match *self {
            DialogueEvent::VariableChanged { name, old_value, new_value } => EventView::VariableChanged {
                name: name@,
                old_value: old_value as int,
                new_value: new_value as int,
            },
        }
    }
}

/// The mathematical value of an optional [`DialogueEvent`].
pub open spec fn opt_event_view(e: Option<DialogueEvent>) -> Option<EventView> {
    match e {
        Some(ev) => Some(ev@),
        None => None,
    }
}

/// The views of a sequence of events.
pub open spec fn events_view(s: Seq<DialogueEvent>) -> Seq<EventView> {
    Seq::new(s.len(), |i: int| s[i]@)
}

/// The event that adding `delta` to `name` gives rise to: one that records
/// the old and the new value where they differ, none where they are equal.
pub open spec fn delta_event(vars: Map<Seq<char>, int>, name: Seq<char>, delta: int) -> Option<
    EventView,
> {
    let old_value = value_of(vars, name);
    let new_value = value_after(vars, name, delta);
    if new_value != old_value {
        Some(EventView::VariableChanged { name, old_value, new_value })
    } else {
        None
    }
}

/// One stored variable.
#[derive(Clone, Debug)]
struct VariableEntry {
    name: String,
    value: i32,
}

/// The names and values of a sequence of entries.
spec fn entries_view(s: Seq<VariableEntry>) -> Seq<(Seq<char>, int)> {
    Seq::new(s.len(), |i: int| (s[i].name@, s[i].value as int))
}

/// The map that a sequence of entries stands for: a later entry overrides an
/// earlier one of the same name.
spec fn entries_map(e: Seq<(Seq<char>, int)>) -> Map<Seq<char>, int>
    decreases e.len(),
{
    if e.len() == 0 {
        Map::empty()
    } else {
        entries_map(e.drop_last()).insert(e.last().0, e.last().1)
    }
}

/// The predicate "the entry at this position has the name `name`".
spec fn entry_has_name(e: Seq<(Seq<char>, int)>, name: Seq<char>) -> spec_fn(int) -> bool {
    |i: int| e[i].0 == name
}

/// A name is in the map exactly where an entry has it, and its value is that
/// of the last such entry.
proof fn lemma_entries_lookup(e: Seq<(Seq<char>, int)>, name: Seq<char>)
    ensures
        match last_index(e.len() as int, entry_has_name(e, name)) {
            Some(k) => entries_map(e).dom().contains(name) && entries_map(e)[name] == e[k].1,
            None => !entries_map(e).dom().contains(name),
        },
    decreases e.len(),
{
    if e.len() > 0 {
        let rest = e.drop_last();
        lemma_entries_lookup(rest, name);
        let p = entry_has_name(e, name);
        let q = entry_has_name(rest, name);
        if !p(e.len() - 1) {
            lemma_last_index(rest.len() as int, q);
            lemma_last_index(rest.len() as int, p);
            match last_index(rest.len() as int, q) {
                Some(k) => {
                    assert(p(k));
                    assert forall|j: int| k < j < rest.len() implies !#[trigger] p(j) by {
                        assert(!q(j));
                    }
                    lemma_last_index_is(rest.len() as int, p, k);
                },
                None => {
                    assert forall|j: int| 0 <= j < rest.len() implies !#[trigger] p(j) by {
                        assert(!q(j));
                    }
                    lemma_last_index_none(rest.len() as int, p);
                },
            }
        }
    }
}

/// Overwriting the last entry of a name is an insertion into the map.
proof fn lemma_entries_update(e: Seq<(Seq<char>, int)>, name: Seq<char>, k: int, v: int)
    requires
        0 <= k < e.len(),
        e[k].0 == name,
        forall|j: int| k < j < e.len() ==> (#[trigger] e[j]).0 != name,
    ensures
        entries_map(e.update(k, (name, v))) == entries_map(e).insert(name, v),
    decreases e.len(),
{
    let updated = e.update(k, (name, v));
    let rest = e.drop_last();
    if k == e.len() - 1 {
        assert(updated.drop_last() =~= rest);
        assert(entries_map(updated) =~= entries_map(e).insert(name, v));
    } else {
        assert(updated.drop_last() =~= rest.update(k, (name, v)));
        assert(updated.last() == e.last());
        assert forall|j: int| k < j < rest.len() implies (#[trigger] rest[j]).0 != name by {
            assert(rest[j] == e[j]);
        }
        lemma_entries_update(rest, name, k, v);
        assert(e.last().0 != name);
        assert(entries_map(updated) =~= entries_map(e).insert(name, v));
    }
}

/// The variables of one conversation.
#[derive(Clone, Debug)]
pub struct VariableStore {
    entries: Vec<VariableEntry>,
}

impl View for VariableStore {
    type V = Map<Seq<char>, int>;

    closed spec fn view(&self) -> Map<Seq<char>, int> {
        entries_map(entries_view(self.entries@))
    }
}

impl VariableStore {
    /// A store in which no variable was written.
    pub fn new() -> (s: VariableStore)
        ensures
            s@ == Map::<Seq<char>, int>::empty(),
    {
        let s = VariableStore { entries: Vec::new() };
        assert(entries_view(s.entries@) =~= Seq::empty());
        s
    }

    /// The position of the last entry with the name `name`.
    fn find(&self, name: &String) -> (r: Option<usize>)
        ensures
            match r {
                Some(k) => k < self.entries.len() && last_index(
                    self.entries.len() as int,
                    entry_has_name(entries_view(self.entries@), name@),
                ) == Some(k as int),
                None => last_index(
                    self.entries.len() as int,
                    entry_has_name(entries_view(self.entries@), name@),
                ) is None,
            },
    {
        let ghost ev = entries_view(self.entries@);
        let ghost p = entry_has_name(ev, name@);
        let mut i: usize = self.entries.len();
        while i > 0
            invariant
                i <= self.entries.len(),
                ev == entries_view(self.entries@),
                p == entry_has_name(ev, name@),
                forall|j: int| i <= j < self.entries.len() ==> !#[trigger] p(j),
            decreases i,
        {
            i -= 1;
            if self.entries[i].name == *name {
                proof {
                    assert(p(i as int));
                    lemma_last_index_is(self.entries.len() as int, p, i as int);
                }
                return Some(i);
            }
            assert(!p(i as int));
        }
        proof {
            lemma_last_index_none(self.entries.len() as int, p);
        }
        None
    }

    /// The value of `name`: zero for a variable that was never written.
    pub fn get(&self, name: &str) -> (r: i32)
        ensures
            r == value_of(self@, name@),
    {
        let key = name.to_owned();
        proof {
            lemma_entries_lookup(entries_view(self.entries@), name@);
        }
        match self.find(&key) {
            Some(k) => self.entries[k].value,
            None => 0,
        }
    }

    /// Adds `delta` to `name` and returns the record of the change, if the
    /// value changed.
    pub fn apply(&mut self, name: &str, delta: i32) -> (r: Option<DialogueEvent>)
        ensures
            final(self)@ == apply_delta(old(self)@, name@, delta as int),
            opt_event_view(r) == delta_event(old(self)@, name@, delta as int),
    {
        let key = name.to_owned();
        let ghost before = entries_view(self.entries@);
        proof {
            lemma_entries_lookup(before, name@);
            lemma_last_index(before.len() as int, entry_has_name(before, name@));
        }
        let found = self.find(&key);
        let old_value: i32 = match found {
            Some(k) => self.entries[k].value,
            None => 0,
        };
        let sum: i64 = old_value as i64 + delta as i64;
        let new_value: i32 = if sum < i32::MIN as i64 {
            i32::MIN
        } else if sum > i32::MAX as i64 {
            i32::MAX
        } else {
            sum as i32
        };
        match found {
            Some(k) => {
                let entry = VariableEntry { name: key.clone(), value: new_value };
                self.entries.set(k, entry);
                proof {
                    assert forall|j: int| k < j < before.len() implies (#[trigger] before[j]).0
                        != name@ by {
                        assert(!entry_has_name(before, name@)(j));
                    }
                    lemma_entries_update(before, name@, k as int, new_value as int);
                    assert(entries_view(self.entries@) =~= before.update(
                        k as int,
                        (name@, new_value as int),
                    ));
                }
            },
            None => {
                self.entries.push(VariableEntry { name: key.clone(), value: new_value });
                proof {
                    let after = entries_view(self.entries@);
                    assert(after.drop_last() =~= before);
                    assert(after.last() == (name@, new_value as int));
                }
            },
        }
        if new_value != old_value {
            Some(DialogueEvent::VariableChanged { name: key, old_value, new_value })
        } else {
            None
        }
    }
}

} // verus!
