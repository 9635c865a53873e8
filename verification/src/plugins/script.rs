//! The values that a script hands to the host.
//!
//! A script's value is dynamically typed. The host reads it through this
//! enum, which keeps what the host can use (integers, floating-point numbers
//! by their bits, strings, arrays, maps and conversations) and folds
//! everything else into one variant.

use crate::plugins::dialogue_def::DialogueDef;
use crate::search::{first_index, lemma_first_index_is, lemma_first_index_none};
use vstd::prelude::*;

verus! {

/// A number of a script: an integer, or a floating-point number, which is
/// held as the bits of its IEEE 754 double-precision form.
#[derive(Clone, Copy, Debug, PartialEq, Eq, Structural)]
pub enum ScriptNumber {
    Int(i64),
    Float(u64),
}

/// A value of a script.
#[derive(Debug)]
pub enum ScriptValue {
    Int(i64),
    /// A floating-point number, as the bits of its double-precision form.
    Float(u64),
    Str(String),
    Array(Vec<ScriptValue>),
    Object(ScriptMap),
    Dialogue(DialogueDef),
    /// Any value of another type.
    Other,
}

/// A map of a script: keys with their values.
#[derive(Debug)]
pub struct ScriptMap {
    pub entries: Vec<(String, ScriptValue)>,
}

impl ScriptValue {
    /// The string that this value is, if it is one.
    pub open spec fn text(self) -> Option<Seq<char>> {
        match self {
            ScriptValue::Str(s) => Some(s@),
            _ => None,
        }
    }

    /// The number that this value is, if it is one.
    pub open spec fn number(self) -> Option<ScriptNumber> {
        match self {
            ScriptValue::Int(i) => Some(ScriptNumber::Int(i)),
            ScriptValue::Float(bits) => Some(ScriptNumber::Float(bits)),
            _ => None,
        }
    }

    /// The integer that this value is, if it is one.
    pub open spec fn integer(self) -> Option<i64> {
        match self {
            ScriptValue::Int(i) => Some(i),
            _ => None,
        }
    }

    /// The number that this value is, if it is one.
    pub fn as_number(&self) -> (r: Option<ScriptNumber>)
        ensures
            r == self.number(),
    {
        match self {
            ScriptValue::Int(i) => Some(ScriptNumber::Int(*i)),
            ScriptValue::Float(bits) => Some(ScriptNumber::Float(*bits)),
            _ => None,
        }
    }

    /// The integer that this value is, if it is one.
    pub fn as_int(&self) -> (r: Option<i64>)
        ensures
            r == self.integer(),
    {
        match self {
            ScriptValue::Int(i) => Some(*i),
            _ => None,
        }
    }

    /// A copy of the string that this value is, if it is one.
    pub fn as_text(&self) -> (r: Option<String>)
        ensures
            match r {
                Some(s) => self.text() == Some(s@),
                None => self.text() is None,
            },
    {
        match self {
            ScriptValue::Str(s) => Some(s.clone()),
            _ => None,
        }
    }
}

/// The predicate "the entry at this position has the key `key`".
pub open spec fn entry_has_key(entries: Seq<(String, ScriptValue)>, key: Seq<char>) -> spec_fn(
    int,
) -> bool {
    |i: int| entries[i].0@ == key
}

impl ScriptMap {
    /// The position of the first entry with the key `key`.
    pub open spec fn position(self, key: Seq<char>) -> Option<int> {
        first_index(0, self.entries@.len() as int, entry_has_key(self.entries@, key))
    }

    /// The value under `key`: that of the first entry with that key.
    pub open spec fn lookup(self, key: Seq<char>) -> Option<ScriptValue> {
        match self.position(key) {
            Some(k) => Some(self.entries@[k].1),
            None => None,
        }
    }

    /// The string under `key`, if there is a value under it and it is one.
    pub open spec fn text_at(self, key: Seq<char>) -> Option<Seq<char>> {
        match self.lookup(key) {
            Some(v) => v.text(),
            None => None,
        }
    }

    /// A map without entries.
    pub fn new() -> (m: ScriptMap)
        ensures
            m.entries@.len() == 0,
    {
        ScriptMap { entries: Vec::new() }
    }

    /// Appends an entry. A key that is already present keeps its first
    /// value.
    pub fn push(&mut self, key: &str, value: ScriptValue)
        ensures
            final(self).entries@.len() == old(self).entries@.len() + 1,
            final(self).entries@.drop_last() == old(self).entries@,
            final(self).entries@.last().0@ == key@,
            final(self).entries@.last().1 == value,
    {
        self.entries.push((key.to_owned(), value));
        assert(final(self).entries@.drop_last() =~= old(self).entries@);
    }

    /// The value under `key`, if any.
    pub fn get(&self, key: &str) -> (r: Option<&ScriptValue>)
        ensures
            match r {
                Some(v) => self.lookup(key@) == Some(*v),
                None => self.lookup(key@) is None,
            },
    {
        let wanted = key.to_owned();
        let ghost p = entry_has_key(self.entries@, key@);
        let mut i: usize = 0;
        while i < self.entries.len()
            invariant
                i <= self.entries.len(),
                wanted@ == key@,
                p == entry_has_key(self.entries@, key@),
                forall|j: int| 0 <= j < i ==> !#[trigger] p(j),
            decreases self.entries.len() - i,
        {
            if self.entries[i].0 == wanted {
                proof {
                    assert(p(i as int));
                    lemma_first_index_is(0, self.entries@.len() as int, p, i as int);
                }
                return Some(&self.entries[i].1);
            }
            assert(!p(i as int));
            i += 1;
        }
        proof {
            lemma_first_index_none(0, self.entries@.len() as int, p);
        }
        None
    }
}

} // verus!
