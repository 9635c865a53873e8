//! The achievements that a player has unlocked, and when one is due.

use crate::search::{first_index, lemma_first_index, lemma_first_index_is, lemma_first_index_none};
use vstd::prelude::*;

verus! {

/// The ids of the achievements that a player has unlocked, in the order in
/// which they were unlocked.
#[derive(Debug, Clone)]
pub struct UnlockedAchievements {
    ids: Vec<String>,
}

/// The predicate "the id at this position is `id`".
pub open spec fn id_is(ids: Seq<Seq<char>>, id: Seq<char>) -> spec_fn(int) -> bool {
    |i: int| ids[i] == id
}

/// Whether `id` is among `ids`.
pub open spec fn is_unlocked(ids: Seq<Seq<char>>, id: Seq<char>) -> bool {
    first_index(0, ids.len() as int, id_is(ids, id)) is Some
}

/// The ids after `id` was unlocked, and whether that was news: an id that is
/// already there is not added again.
pub open spec fn unlock_id(ids: Seq<Seq<char>>, id: Seq<char>) -> (Seq<Seq<char>>, bool) {
    if is_unlocked(ids, id) {
        (ids, false)
    } else {
        (ids.push(id), true)
    }
}

/// `is_unlocked` holds exactly where the id occurs.
pub proof fn lemma_is_unlocked(ids: Seq<Seq<char>>, id: Seq<char>)
    ensures
        is_unlocked(ids, id) <==> ids.contains(id),
{
    let p = id_is(ids, id);
    lemma_first_index(0, ids.len() as int, p);
    if is_unlocked(ids, id) {
        let k = first_index(0, ids.len() as int, p)->Some_0;
        assert(ids[k] == id);
    }
    if ids.contains(id) {
        let k = choose|k: int| 0 <= k < ids.len() && ids[k] == id;
        assert(p(k));
    }
}

impl View for UnlockedAchievements {
    type V = Seq<Seq<char>>;

    closed spec fn view(&self) -> Seq<Seq<char>> {
        Seq::new(self.ids@.len(), |i: int| self.ids@[i]@)
    }
}

impl UnlockedAchievements {
    /// Nothing unlocked.
    pub fn new() -> (r: UnlockedAchievements)
        ensures
            r@ == Seq::<Seq<char>>::empty(),
    {
        let r = UnlockedAchievements { ids: Vec::new() };
        assert(r@ =~= Seq::<Seq<char>>::empty());
        r
    }

    /// Whether `id` is unlocked.
    pub fn contains(&self, id: &str) -> (r: bool)
        ensures
            r == is_unlocked(self@, id@),
    {
        let key = id.to_owned();
        let ghost p = id_is(self@, id@);
        let mut i: usize = 0;
        while i < self.ids.len()
            invariant
                i <= self.ids.len(),
                key@ == id@,
                p == id_is(self@, id@),
                forall|j: int| 0 <= j < i ==> !#[trigger] p(j),
            decreases self.ids.len() - i,
        {
            if self.ids[i] == key {
                proof {
                    assert(p(i as int));
                    lemma_first_index_is(0, self.ids.len() as int, p, i as int);
                }
                return true;
            }
            assert(!p(i as int));
            i += 1;
        }
        proof {
            lemma_first_index_none(0, self.ids.len() as int, p);
        }
        false
    }

    /// Unlocks `id`. Returns whether it was locked before.
    pub fn unlock(&mut self, id: &str) -> (r: bool)
        ensures
            (final(self)@, r) == unlock_id(old(self)@, id@),
    {
        if self.contains(id) {
            return false;
        }
        self.ids.push(id.to_owned());
        assert(final(self)@ =~= old(self)@.push(id@));
        true
    }

    /// The number of unlocked achievements.
    pub fn count(&self) -> (r: usize)
        ensures
            r == self@.len(),
    {
        self.ids.len()
    }

    /// The unlocked ids, in the order in which they were unlocked.
    pub fn ids(&self) -> (r: &Vec<String>)
        ensures
            r@.len() == self@.len(),
            forall|i: int| 0 <= i < r@.len() ==> (#[trigger] r@[i])@ == self@[i],
    {
        &self.ids
    }
}

} // verus!
