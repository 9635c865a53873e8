//! What the player has caught and how the characters feel about it.

use crate::achievements::unlocked::UnlockedAchievements;
use crate::data::fish_id::{FishId, FishIdView};
use crate::data::table::FishTable;
use vstd::prelude::*;

verus! {

/// The size of a caught fish.
#[derive(Debug, Clone, Copy, PartialEq, Eq, Structural)]
pub enum FishSize {
    Small,
    Medium,
    Large,
}

impl FishSize {
    /// The word for this size.
    pub open spec fn label_text(self) -> Seq<char> {
        match self {
            FishSize::Small => "Small"@,
            FishSize::Medium => "Medium"@,
            FishSize::Large => "Large"@,
        }
    }

    /// The word for this size.
    pub fn label(&self) -> (r: &'static str)
        ensures
            r@ == self.label_text(),
    {
        match self {
            FishSize::Small => "Small",
            FishSize::Medium => "Medium",
            FishSize::Large => "Large",
        }
    }
}

/// One catch: who was caught, in which pond, and how big it was.
#[derive(Debug, Clone)]
pub struct CaughtFish {
    pub id: FishId,
    pub caught_at: String,
    pub size: FishSize,
}

/// The mathematical value of a [`CaughtFish`].
pub struct CaughtFishView {
    pub id: FishIdView,
    pub caught_at: Seq<char>,
    pub size: FishSize,
}

impl View for CaughtFish {
    type V = CaughtFishView;

    open spec fn view(&self) -> CaughtFishView {
        CaughtFishView { id: self.id@, caught_at: self.caught_at@, size: self.size }
    }
}

/// The views of a sequence of catches.
pub open spec fn catches_view(s: Seq<CaughtFish>) -> Seq<CaughtFishView> {
    Seq::new(s.len(), |i: int| s[i]@)
}

/// The score from which on two are soulmates.
pub const SOULMATE_SCORE: i32 = 41;

/// The word for a relationship score.
pub open spec fn relationship_label_text(score: int) -> Seq<char> {
    if score <= 0 {
        "Stranger"@
    } else if score <= 5 {
        "Acquaintance"@
    } else if score <= 15 {
        "Friend"@
    } else if score <= 25 {
        "Close Friend"@
    } else if score <= 40 {
        "Romantic Interest"@
    } else {
        "Soulmate"@
    }
}

/// The word for a relationship score: "Stranger" up to 0, "Acquaintance" up
/// to 5, "Friend" up to 15, "Close Friend" up to 25, "Romantic Interest" up
/// to 40, and "Soulmate" above.
pub fn relationship_label(score: i32) -> (r: &'static str)
    ensures
        r@ == relationship_label_text(score as int),
{
    if score <= 0 {
        "Stranger"
    } else if score <= 5 {
        "Acquaintance"
    } else if score <= 15 {
        "Friend"
    } else if score <= 25 {
        "Close Friend"
    } else if score <= 40 {
        "Romantic Interest"
    } else {
        "Soulmate"
    }
}

/// How often `id` occurs among the catches.
pub open spec fn count_caught(catches: Seq<CaughtFishView>, id: FishIdView) -> nat
    decreases catches.len(),
{
    if catches.len() == 0 {
        0
    } else {
        count_caught(catches.drop_last(), id) + if catches.last().id == id {
            1nat
        } else {
            0nat
        }
    }
}

/// The score of `id`: zero for a character without one.
pub open spec fn score_of(scores: Map<FishIdView, i32>, id: FishIdView) -> int {
    if scores.dom().contains(id) {
        scores[id] as int
    } else {
        0
    }
}

/// The number of dates with `id`: zero for a character without any.
pub open spec fn dates_of(counts: Map<FishIdView, u32>, id: FishIdView) -> int {
    if counts.dom().contains(id) {
        counts[id] as int
    } else {
        0
    }
}

/// The score of `id` after `amount` was added to it: a score does not fall
/// below zero.
pub open spec fn score_after(scores: Map<FishIdView, i32>, id: FishIdView, amount: int) -> int {
    let sum = score_of(scores, id) + amount;
    if sum < 0 {
        0
    } else {
        sum
    }
}

/// Everything that is saved of a game.
#[derive(Debug, Clone)]
pub struct PlayerState {
    pub fish_collection: Vec<CaughtFish>,
    pub relationship_scores: FishTable<i32>,
    pub date_counts: FishTable<u32>,
    pub current_day: u32,
    pub dates_completed: u32,
    pub achievements: UnlockedAchievements,
}

/// The mathematical value of a [`PlayerState`].
pub struct PlayerView {
    pub fish_collection: Seq<CaughtFishView>,
    pub relationship_scores: Map<FishIdView, i32>,
    pub date_counts: Map<FishIdView, u32>,
    pub current_day: u32,
    pub dates_completed: u32,
    pub achievements: Seq<Seq<char>>,
}

impl View for PlayerState {
    type V = PlayerView;

    open spec fn view(&self) -> PlayerView {
        PlayerView {
            fish_collection: catches_view(self.fish_collection@),
            relationship_scores: self.relationship_scores@,
            date_counts: self.date_counts@,
            current_day: self.current_day,
            dates_completed: self.dates_completed,
            achievements: self.achievements@,
        }
    }
}

impl PlayerView {
    /// The state of a new game: nothing caught, no score, no date, day one.
    pub open spec fn fresh() -> PlayerView {
        PlayerView {
            fish_collection: Seq::empty(),
            relationship_scores: Map::empty(),
            date_counts: Map::empty(),
            current_day: 1,
            dates_completed: 0,
            achievements: Seq::empty(),
        }
    }

    /// Whether `id` was caught at least once.
    pub open spec fn has_caught(self, id: FishIdView) -> bool {
        exists|i: int| 0 <= i < self.fish_collection.len() && (#[trigger] self.fish_collection[i]).id == id
    }

    /// Whether the player has won: some score has reached that of a
    /// soulmate.
    pub open spec fn has_won(self) -> bool {
        exists|id: FishIdView| #[trigger]
            self.relationship_scores.dom().contains(id) && self.relationship_scores[id]
                >= SOULMATE_SCORE
    }

    /// Whether `id` has the score `score` and no character has a higher one.
    pub open spec fn is_closest(self, id: FishIdView, score: i32) -> bool {
        &&& self.relationship_scores.dom().contains(id)
        &&& self.relationship_scores[id] == score
        &&& forall|other: FishIdView| #[trigger]
            self.relationship_scores.dom().contains(other) ==> self.relationship_scores[other]
                <= score
    }
}

impl Default for PlayerState {
    fn default() -> (r: PlayerState)
        ensures
            r@ == PlayerView::fresh(),
    {
        PlayerState::new()
    }
}

impl PlayerState {
    /// The state of a new game.
    pub fn new() -> (r: PlayerState)
        ensures
            r@ == PlayerView::fresh(),
    {
        let r = PlayerState {
            fish_collection: Vec::new(),
            relationship_scores: FishTable::new(),
            date_counts: FishTable::new(),
            current_day: 1,
            dates_completed: 0,
            achievements: UnlockedAchievements::new(),
        };
        assert(r@.fish_collection =~= Seq::empty());
        r
    }

    /// Whether `fish_id` was caught at least once.
    pub fn has_caught(&self, fish_id: &FishId) -> (r: bool)
        ensures
            r == self@.has_caught(fish_id@),
    {
        let mut i: usize = 0;
        while i < self.fish_collection.len()
            invariant
                i <= self.fish_collection.len(),
                forall|j: int| 0 <= j < i ==> (#[trigger] self@.fish_collection[j]).id != fish_id@,
            decreases self.fish_collection.len() - i,
        {
            if self.fish_collection[i].id.same_as(fish_id) {
                assert(self@.fish_collection[i as int].id == fish_id@);
                return true;
            }
            i += 1;
        }
        false
    }

    /// How often `fish_id` was caught.
    pub fn catch_count(&self, fish_id: &FishId) -> (r: usize)
        ensures
            r == count_caught(self@.fish_collection, fish_id@),
    {
        let ghost all = self@.fish_collection;
        let mut count: usize = 0;
        let mut i: usize = 0;
        assert(all.take(0) =~= Seq::empty());
        while i < self.fish_collection.len()
            invariant
                i <= self.fish_collection.len(),
                all == self@.fish_collection,
                count <= i,
                count == count_caught(all.take(i as int), fish_id@),
            decreases self.fish_collection.len() - i,
        {
            assert(all.take(i + 1).drop_last() =~= all.take(i as int));
            assert(all.take(i + 1).last() == all[i as int]);
            if self.fish_collection[i].id.same_as(fish_id) {
                count += 1;
            }
            i += 1;
        }
        assert(all.take(i as int) =~= all);
        count
    }

    /// The relationship score of `fish_id`.
    pub fn relationship(&self, fish_id: &FishId) -> (r: i32)
        ensures
            r == score_of(self@.relationship_scores, fish_id@),
    {
        match self.relationship_scores.get(fish_id) {
            Some(s) => s,
            None => 0,
        }
    }

    /// Adds `amount` to the score of `fish_id`, which does not fall below
    /// zero.
    pub fn add_affection(&mut self, fish_id: FishId, amount: i32)
        requires
            i32::MIN <= score_of(old(self)@.relationship_scores, fish_id@) + amount <= i32::MAX,
        ensures
            final(self)@ == (PlayerView {
                relationship_scores: old(self)@.relationship_scores.insert(
                    fish_id@,
                    score_after(old(self)@.relationship_scores, fish_id@, amount as int) as i32,
                ),
                ..old(self)@
            }),
            score_of(final(self)@.relationship_scores, fish_id@) == score_after(
                old(self)@.relationship_scores,
                fish_id@,
                amount as int,
            ),
    {
        let score = self.relationship(&fish_id);
        let sum = score + amount;
        let updated = if sum < 0 {
            0
        } else {
            sum
        };
        self.relationship_scores.set(fish_id, updated);
    }

    /// The number of dates with `fish_id`.
    pub fn date_count(&self, fish_id: &FishId) -> (r: u32)
        ensures
            r == dates_of(self@.date_counts, fish_id@),
    {
        match self.date_counts.get(fish_id) {
            Some(c) => c,
            None => 0,
        }
    }

    /// Counts one more date with `fish_id`.
    pub fn increment_date_count(&mut self, fish_id: FishId)
        requires
            dates_of(old(self)@.date_counts, fish_id@) < u32::MAX,
        ensures
            final(self)@ == (PlayerView {
                date_counts: old(self)@.date_counts.insert(
                    fish_id@,
                    (dates_of(old(self)@.date_counts, fish_id@) + 1) as u32,
                ),
                ..old(self)@
            }),
            dates_of(final(self)@.date_counts, fish_id@) == dates_of(
                old(self)@.date_counts,
                fish_id@,
            ) + 1,
    {
        let count = self.date_count(&fish_id);
        self.date_counts.set(fish_id, count + 1);
    }

    /// Records a catch of `fish_id` in the pond `pond_name`.
    pub fn add_catch(&mut self, fish_id: FishId, pond_name: &str, size: FishSize)
        ensures
            final(self)@ == (PlayerView {
                fish_collection: old(self)@.fish_collection.push(
                    CaughtFishView { id: fish_id@, caught_at: pond_name@, size },
                ),
                ..old(self)@
            }),
    {
        self.fish_collection.push(CaughtFish { id: fish_id, caught_at: pond_name.to_owned(), size });
        assert(final(self)@.fish_collection =~= old(self)@.fish_collection.push(
            CaughtFishView { id: fish_id@, caught_at: pond_name@, size },
        ));
    }

    /// Whether the player has won.
    pub fn has_won(&self) -> (r: bool)
        ensures
            r == self@.has_won(),
    {
        let n = self.relationship_scores.len();
        let mut i: usize = 0;
        proof {
            self.relationship_scores.lemma_keys();
        }
        while i < n
            invariant
                i <= n == self.relationship_scores.keys().len(),
                forall|j: int|
                    0 <= j < i ==> self@.relationship_scores[#[trigger] self.relationship_scores.keys()[j]]
                        < SOULMATE_SCORE,
                forall|key: FishIdView| #[trigger]
                    self@.relationship_scores.dom().contains(key) <==> exists|k: int|
                        0 <= k < self.relationship_scores.keys().len()
                            && #[trigger] self.relationship_scores.keys()[k] == key,
            decreases n - i,
        {
            let key = self.relationship_scores.key_at(i);
            assert(self@.relationship_scores.dom().contains(key@));
            match self.relationship_scores.get(key) {
                Some(s) => {
                    if s >= SOULMATE_SCORE {
                        return true;
                    }
                },
                None => {},
            }
            i += 1;
        }
        assert forall|id: FishIdView| #[trigger]
            self@.relationship_scores.dom().contains(id) implies self@.relationship_scores[id]
            < SOULMATE_SCORE by {
            let k = choose|k: int|
                0 <= k < self.relationship_scores.keys().len()
                    && #[trigger] self.relationship_scores.keys()[k] == id;
            assert(self@.relationship_scores[self.relationship_scores.keys()[k]] < SOULMATE_SCORE);
        }
        false
    }

    /// A character with the highest score, and that score; nothing where no
    /// character has a score. Among several with the highest score any one
    /// may be returned.
    pub fn closest_fish(&self) -> (r: Option<(FishId, i32)>)
        ensures
            match r {
                Some((id, score)) => self@.is_closest(id@, score),
                None => self@.relationship_scores.dom() =~= Set::<FishIdView>::empty(),
            },
    {
        let n = self.relationship_scores.len();
        let mut best: Option<(usize, i32)> = None;
        let mut i: usize = 0;
        proof {
            self.relationship_scores.lemma_keys();
        }
        while i < n
            invariant
                i <= n == self.relationship_scores.keys().len(),
                forall|key: FishIdView| #[trigger]
                    self@.relationship_scores.dom().contains(key) <==> exists|k: int|
                        0 <= k < self.relationship_scores.keys().len()
                            && #[trigger] self.relationship_scores.keys()[k] == key,
                match best {
                    Some((b, score)) => b < i && self@.relationship_scores[self.relationship_scores.keys()[b as int]]
                        == score && forall|j: int|
                        0 <= j < i ==> self@.relationship_scores[#[trigger] self.relationship_scores.keys()[j]]
                            <= score,
                    None => i == 0,
                },
            decreases n - i,
        {
            let key = self.relationship_scores.key_at(i);
            assert(self@.relationship_scores.dom().contains(key@));
            match self.relationship_scores.get(key) {
                Some(s) => {
                    match best {
                        Some((_, score)) => {
                            if s >= score {
                                best = Some((i, s));
                            }
                        },
                        None => {
                            best = Some((i, s));
                        },
                    }
                },
                None => {},
            }
            i += 1;
        }
        match best {
            Some((b, score)) => {
                let id = self.relationship_scores.key_at(b).copy();
                assert(self@.relationship_scores.dom().contains(id@));
                assert forall|other: FishIdView| #[trigger]
                    self@.relationship_scores.dom().contains(other) implies self@.relationship_scores[other]
                    <= score by {
                    let k = choose|k: int|
                        0 <= k < self.relationship_scores.keys().len()
                            && #[trigger] self.relationship_scores.keys()[k] == other;
                    assert(self@.relationship_scores[self.relationship_scores.keys()[k]] <= score);
                }
                Some((id, score))
            },
            None => {
                assert forall|key: FishIdView| !self@.relationship_scores.dom().contains(key) by {
                    if self@.relationship_scores.dom().contains(key) {
                        let k = choose|k: int|
                            0 <= k < self.relationship_scores.keys().len()
                                && #[trigger] self.relationship_scores.keys()[k] == key;
                    }
                }
                None
            },
        }
    }
}

} // verus!
