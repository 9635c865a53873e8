//! The registry of the characters that scripts defined.
//!
//! Characters are kept in the order in which they were registered. No two of
//! them share an id: a registration under an id that is taken is dropped, so
//! the first one stays.

use crate::plugins::fish_def::{fish_defs_view, FishDef, FishDefView};
use crate::search::{first_index, lemma_first_index, lemma_first_index_is, lemma_first_index_none};
use vstd::prelude::*;

verus! {

/// The predicate "the character at this position has the id `id`".
pub open spec fn fish_has_id(fish: Seq<FishDefView>, id: Seq<char>) -> spec_fn(int) -> bool {
    |i: int| fish[i].id == id
}

/// The predicate "the character at this position lives in the pond
/// `pond_name`".
pub open spec fn fish_in_pond(fish: Seq<FishDefView>, pond_name: Seq<char>) -> spec_fn(int) -> bool {
    |i: int| fish[i].pond_name == pond_name
}

/// The position of the character with the id `id`.
pub open spec fn find_fish(fish: Seq<FishDefView>, id: Seq<char>) -> Option<int> {
    first_index(0, fish.len() as int, fish_has_id(fish, id))
}

/// The character with the id `id`.
pub open spec fn lookup_fish(fish: Seq<FishDefView>, id: Seq<char>) -> Option<FishDefView> {
    match find_fish(fish, id) {
        Some(k) => Some(fish[k]),
        None => None,
    }
}

/// The character that was registered first among those of the pond
/// `pond_name`.
pub open spec fn lookup_pond(fish: Seq<FishDefView>, pond_name: Seq<char>) -> Option<FishDefView> {
    match first_index(0, fish.len() as int, fish_in_pond(fish, pond_name)) {
        Some(k) => Some(fish[k]),
        None => None,
    }
}

/// No two characters share an id.
pub open spec fn unique_ids(fish: Seq<FishDefView>) -> bool {
    forall|i: int, j: int|
        0 <= i < j < fish.len() ==> (#[trigger] fish[i]).id != (#[trigger] fish[j]).id
}

/// How many characters have the id `id`.
pub open spec fn count_id(fish: Seq<FishDefView>, id: Seq<char>) -> nat
    decreases fish.len(),
{
    if fish.len() == 0 {
        0
    } else {
        count_id(fish.drop_last(), id) + if fish.last().id == id {
            1nat
        } else {
            0nat
        }
    }
}

/// The registry after an attempt to register `fish`, and whether the attempt
/// succeeded: it fails, and changes nothing, where the id is taken.
pub open spec fn register_fish(reg: Seq<FishDefView>, fish: FishDefView) -> (Seq<FishDefView>, bool) {
    if find_fish(reg, fish.id) is Some {
        (reg, false)
    } else {
        (reg.push(fish), true)
    }
}

/// `find_fish` finds a character exactly where one has the id.
pub proof fn lemma_find_fish(fish: Seq<FishDefView>, id: Seq<char>)
    ensures
        match find_fish(fish, id) {
            Some(k) => 0 <= k < fish.len() && fish[k].id == id,
            None => forall|i: int| 0 <= i < fish.len() ==> (#[trigger] fish[i]).id != id,
        },
{
    let p = fish_has_id(fish, id);
    lemma_first_index(0, fish.len() as int, p);
    if find_fish(fish, id) is None {
        assert forall|i: int| 0 <= i < fish.len() implies (#[trigger] fish[i]).id != id by {
            assert(!p(i));
        }
    }
}

/// In a registry without a repeated id, an id is either absent or present
/// once.
pub proof fn lemma_count_id(fish: Seq<FishDefView>, id: Seq<char>)
    requires
        unique_ids(fish),
    ensures
        count_id(fish, id) == if find_fish(fish, id) is Some {
            1nat
        } else {
            0nat
        },
    decreases fish.len(),
{
    lemma_find_fish(fish, id);
    if fish.len() > 0 {
        let rest = fish.drop_last();
        assert forall|i: int, j: int| 0 <= i < j < rest.len() implies (#[trigger] rest[i]).id != (
        #[trigger] rest[j]).id by {
            assert(rest[i] == fish[i]);
            assert(rest[j] == fish[j]);
        }
        lemma_count_id(rest, id);
        lemma_find_fish(rest, id);
        match find_fish(rest, id) {
            Some(k) => {
                assert(rest[k] == fish[k]);
                assert(fish[k].id != fish[fish.len() - 1].id);
            },
            None => {
                if fish.last().id != id {
                    assert forall|i: int| 0 <= i < fish.len() implies (#[trigger] fish[i]).id
                        != id by {
                        if i < rest.len() {
                            assert(rest[i] == fish[i]);
                        }
                    }
                }
            },
        }
    }
}

/// Registering keeps the ids unique, keeps every character that was there at
/// its place, and adds at most the new one.
pub proof fn lemma_register_fish(reg: Seq<FishDefView>, fish: FishDefView)
    requires
        unique_ids(reg),
    ensures
        unique_ids(register_fish(reg, fish).0),
        reg.len() <= register_fish(reg, fish).0.len() <= reg.len() + 1,
        forall|i: int| 0 <= i < reg.len() ==> register_fish(reg, fish).0[i] == reg[i],
        lookup_fish(register_fish(reg, fish).0, fish.id) is Some,
{
    lemma_find_fish(reg, fish.id);
    let out = register_fish(reg, fish).0;
    lemma_find_fish(out, fish.id);
    if find_fish(reg, fish.id) is None {
        assert(out[reg.len() as int].id == fish.id);
        assert forall|i: int, j: int| 0 <= i < j < out.len() implies (#[trigger] out[i]).id != (
        #[trigger] out[j]).id by {
            assert(out[i] == reg[i]);
            if j < reg.len() {
                assert(out[j] == reg[j]);
            }
        }
    }
}

/// Rejection of a duplicate id. Of two characters with one id that are
/// registered one after the other, the second is refused: the registry and
/// its count stay as the first attempt left them. The id is then present
/// exactly once, and where it was free before, it is the first character
/// that is found under it.
pub proof fn law_duplicate_id_is_rejected(reg: Seq<FishDefView>, first: FishDefView, second: FishDefView)
    requires
        unique_ids(reg),
        first.id == second.id,
    ensures
        ({
            let (after_first, _) = register_fish(reg, first);
            let (after_second, accepted) = register_fish(after_first, second);
            &&& !accepted
            &&& after_second == after_first
            &&& after_second.len() == after_first.len()
            &&& count_id(after_second, first.id) == 1
            &&& find_fish(reg, first.id) is None ==> lookup_fish(after_second, first.id) == Some(
                first,
            )
        }),
{
    let (after_first, _) = register_fish(reg, first);
    lemma_register_fish(reg, first);
    lemma_find_fish(reg, first.id);
    lemma_find_fish(after_first, first.id);
    lemma_count_id(after_first, first.id);
    if find_fish(reg, first.id) is None {
        let k = find_fish(after_first, first.id)->Some_0;
        if k < reg.len() {
            assert(after_first[k] == reg[k]);
        }
    }
}

/// The characters that scripts defined, by id and in registration order.
#[derive(Debug)]
pub struct FishRegistry {
    fish: Vec<FishDef>,
}

impl View for FishRegistry {
    type V = Seq<FishDefView>;

    closed spec fn view(&self) -> Seq<FishDefView> {
        fish_defs_view(self.fish@)
    }
}

impl FishRegistry {
    /// Well-formedness: no two characters share an id. The empty registry is
    /// well-formed and `register` keeps a registry so.
    pub open spec fn wf(&self) -> bool {
        unique_ids(self@)
    }

    /// An empty registry.
    pub fn new() -> (r: FishRegistry)
        ensures
            r@ == Seq::<FishDefView>::empty(),
            r.wf(),
    {
        let r = FishRegistry { fish: Vec::new() };
        assert(r@ =~= Seq::<FishDefView>::empty());
        r
    }

    /// The position of the character with the id `id`.
    fn find(&self, id: &String) -> (r: Option<usize>)
        ensures
            match r {
                Some(k) => k < self.fish.len() && find_fish(self@, id@) == Some(k as int),
                None => find_fish(self@, id@) is None,
            },
    {
        let ghost p = fish_has_id(self@, id@);
        let mut i: usize = 0;
        while i < self.fish.len()
            invariant
                i <= self.fish.len(),
                p == fish_has_id(self@, id@),
                forall|j: int| 0 <= j < i ==> !#[trigger] p(j),
            decreases self.fish.len() - i,
        {
            if self.fish[i].id == *id {
                proof {
                    assert(p(i as int));
                    lemma_first_index_is(0, self.fish.len() as int, p, i as int);
                }
                return Some(i);
            }
            assert(!p(i as int));
            i += 1;
        }
        proof {
            lemma_first_index_none(0, self.fish.len() as int, p);
        }
        None
    }

    /// Registers `fish`, unless its id is taken. Returns whether it was
    /// registered.
    pub fn register(&mut self, fish: FishDef) -> (r: bool)
        ensures
            (final(self)@, r) == register_fish(old(self)@, fish@),
            old(self).wf() ==> final(self).wf(),
    {
        proof {
            if self.wf() {
                lemma_register_fish(self@, fish@);
            }
        }
        if self.find(&fish.id).is_some() {
            return false;
        }
        self.fish.push(fish);
        assert(fish_defs_view(self.fish@) =~= old(self)@.push(fish@));
        true
    }

    /// The character with the id `id`, if any.
    pub fn get(&self, id: &str) -> (r: Option<&FishDef>)
        ensures
            match r {
                Some(f) => lookup_fish(self@, id@) == Some(f@),
                None => lookup_fish(self@, id@) is None,
            },
    {
        let key = id.to_owned();
        match self.find(&key) {
            Some(k) => Some(&self.fish[k]),
            None => None,
        }
    }

    /// The ids of the characters, in registration order.
    pub fn plugin_ids(&self) -> (r: Vec<String>)
        ensures
            r@.len() == self@.len(),
            forall|i: int| 0 <= i < r@.len() ==> (#[trigger] r@[i])@ == self@[i].id,
    {
        let mut out: Vec<String> = Vec::new();
        let mut i: usize = 0;
        while i < self.fish.len()
            invariant
                i <= self.fish.len(),
                out@.len() == i,
                forall|k: int| 0 <= k < i ==> (#[trigger] out@[k])@ == self@[k].id,
            decreases self.fish.len() - i,
        {
            out.push(self.fish[i].id.clone());
            i += 1;
        }
        out
    }

    /// The characters, in registration order.
    pub fn all_fish(&self) -> (r: Vec<&FishDef>)
        ensures
            r@.len() == self@.len(),
            forall|i: int| 0 <= i < r@.len() ==> (#[trigger] r@[i])@ == self@[i],
    {
        let mut out: Vec<&FishDef> = Vec::new();
        let mut i: usize = 0;
        while i < self.fish.len()
            invariant
                i <= self.fish.len(),
                out@.len() == i,
                forall|k: int| 0 <= k < i ==> (#[trigger] out@[k])@ == self@[k],
            decreases self.fish.len() - i,
        {
            out.push(&self.fish[i]);
            i += 1;
        }
        out
    }

    /// The number of characters.
    pub fn count(&self) -> (r: usize)
        ensures
            r == self@.len(),
    {
        self.fish.len()
    }

    /// The pond names of the characters, in registration order.
    pub fn pond_names(&self) -> (r: Vec<&str>)
        ensures
            r@.len() == self@.len(),
            forall|i: int| 0 <= i < r@.len() ==> (#[trigger] r@[i])@ == self@[i].pond_name,
    {
        let mut out: Vec<&str> = Vec::new();
        let mut i: usize = 0;
        while i < self.fish.len()
            invariant
                i <= self.fish.len(),
                out@.len() == i,
                forall|k: int| 0 <= k < i ==> (#[trigger] out@[k])@ == self@[k].pond_name,
            decreases self.fish.len() - i,
        {
            out.push(self.fish[i].pond_name.as_str());
            i += 1;
        }
        out
    }

    /// The character that was registered first among those of the pond
    /// `pond_name`, if any.
    pub fn fish_by_pond(&self, pond_name: &str) -> (r: Option<&FishDef>)
        ensures
            match r {
                Some(f) => lookup_pond(self@, pond_name@) == Some(f@),
                None => lookup_pond(self@, pond_name@) is None,
            },
    {
        let key = pond_name.to_owned();
        let ghost p = fish_in_pond(self@, pond_name@);
        let mut i: usize = 0;
        while i < self.fish.len()
            invariant
                i <= self.fish.len(),
                key@ == pond_name@,
                p == fish_in_pond(self@, pond_name@),
                forall|j: int| 0 <= j < i ==> !#[trigger] p(j),
            decreases self.fish.len() - i,
        {
            if self.fish[i].pond_name == key {
                proof {
                    assert(p(i as int));
                    lemma_first_index_is(0, self.fish.len() as int, p, i as int);
                }
                return Some(&self.fish[i]);
            }
            assert(!p(i as int));
            i += 1;
        }
        proof {
            lemma_first_index_none(0, self.fish.len() as int, p);
        }
        None
    }
}

} // verus!
