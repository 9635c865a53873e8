//! When an achievement is due.
//!
//! Most achievements follow from the player's state and are looked for after
//! every change of it. Three follow from an event: a large catch, the
//! discovery of the moon battle, and the victory in it.

use crate::achievements::ids;
use crate::achievements::unlocked::{unlock_id, UnlockedAchievements};
use crate::data::fish_id::{all_ids, fish_ids_view, FishId};
use crate::data::player::{score_of, FishSize, PlayerState, PlayerView};
use crate::plugins::fish_def::FishDefView;
use crate::plugins::registry::FishRegistry;
use vstd::prelude::*;

verus! {

/// The score from which on two are friends.
pub const FRIEND_SCORE: i32 = 6;

/// Whether every character was caught at least once.
pub open spec fn all_caught(player: PlayerView, registry: Seq<FishDefView>) -> bool {
    forall|i: int|
        0 <= i < all_ids(registry).len() ==> player.has_caught(#[trigger] all_ids(registry)[i])
}

/// Whether every character is at least a friend.
pub open spec fn all_friends(player: PlayerView, registry: Seq<FishDefView>) -> bool {
    forall|i: int|
        0 <= i < all_ids(registry).len() ==> score_of(
            player.relationship_scores,
            #[trigger] all_ids(registry)[i],
        ) >= FRIEND_SCORE
}

/// Whether some catch is of a character that a script defined.
pub open spec fn has_plugin_catch(player: PlayerView) -> bool {
    exists|i: int|
        0 <= i < player.fish_collection.len() && (#[trigger] player.fish_collection[i]).id is Plugin
}

/// `ids` with `id` at its end, if `due` holds.
pub open spec fn with_if(found: Seq<Seq<char>>, due: bool, id: Seq<char>) -> Seq<Seq<char>> {
    if due {
        found.push(id)
    } else {
        found
    }
}

/// The achievements that are due in a state, in the order in which they
/// are looked for: the first catch, fifty catches, every character caught, a
/// catch of a script's character, the first date, ten dates, a soulmate,
/// every character a friend, and the thirtieth day.
pub open spec fn due_achievements(player: PlayerView, registry: Seq<FishDefView>) -> Seq<Seq<char>> {
    let a = with_if(Seq::empty(), player.fish_collection.len() > 0, ids::FIRST_CATCH@);
    let b = with_if(a, player.fish_collection.len() >= 50, ids::CATCH_50@);
    let c = with_if(b, all_caught(player, registry), ids::CATCH_ALL@);
    let d = with_if(c, has_plugin_catch(player), ids::PLUGIN_FISH@);
    let e = with_if(d, player.dates_completed >= 1, ids::FIRST_DATE@);
    let f = with_if(e, player.dates_completed >= 10, ids::DATE_10@);
    let g = with_if(f, player.has_won(), ids::SOULMATE@);
    let h = with_if(g, all_friends(player, registry), ids::ALL_FRIENDS@);
    with_if(h, player.current_day >= 30, ids::DAY_30@)
}

/// The unlocked ids after each of `due` was unlocked, in order.
pub open spec fn unlock_each(unlocked: Seq<Seq<char>>, due: Seq<Seq<char>>) -> Seq<Seq<char>>
    decreases due.len(),
{
    if due.len() == 0 {
        unlocked
    } else {
        unlock_id(unlock_each(unlocked, due.drop_last()), due.last()).0
    }
}

/// Those of `due` that were news, in order.
pub open spec fn newly_unlocked(unlocked: Seq<Seq<char>>, due: Seq<Seq<char>>) -> Seq<Seq<char>>
    decreases due.len(),
{
    if due.len() == 0 {
        Seq::empty()
    } else {
        let before = newly_unlocked(unlocked, due.drop_last());
        if unlock_id(unlock_each(unlocked, due.drop_last()), due.last()).1 {
            before.push(due.last())
        } else {
            before
        }
    }
}

/// The views of a sequence of static strings.
pub open spec fn strs_view(s: Seq<&'static str>) -> Seq<Seq<char>> {
    Seq::new(s.len(), |i: int| s[i]@)
}

/// Whether every character was caught at least once.
fn every_fish_caught(player: &PlayerState, all: &Vec<FishId>) -> (r: bool)
    ensures
        r == forall|i: int| 0 <= i < all@.len() ==> player@.has_caught(#[trigger] all@[i]@),
{
    let mut i: usize = 0;
    while i < all.len()
        invariant
            i <= all.len(),
            forall|k: int| 0 <= k < i ==> player@.has_caught(#[trigger] all@[k]@),
        decreases all.len() - i,
    {
        if !player.has_caught(&all[i]) {
            return false;
        }
        i += 1;
    }
    true
}

/// Whether every character is at least a friend.
fn every_fish_friend(player: &PlayerState, all: &Vec<FishId>) -> (r: bool)
    ensures
        r == forall|i: int|
            0 <= i < all@.len() ==> score_of(player@.relationship_scores, #[trigger] all@[i]@)
                >= FRIEND_SCORE,
{
    let mut i: usize = 0;
    while i < all.len()
        invariant
            i <= all.len(),
            forall|k: int|
                0 <= k < i ==> score_of(player@.relationship_scores, #[trigger] all@[k]@)
                    >= FRIEND_SCORE,
        decreases all.len() - i,
    {
        if player.relationship(&all[i]) < FRIEND_SCORE {
            return false;
        }
        i += 1;
    }
    true
}

/// Whether some catch is of a character that a script defined.
fn any_plugin_catch(player: &PlayerState) -> (r: bool)
    ensures
        r == has_plugin_catch(player@),
{
    let mut i: usize = 0;
    while i < player.fish_collection.len()
        invariant
            i <= player.fish_collection.len(),
            forall|k: int| 0 <= k < i ==> !((#[trigger] player@.fish_collection[k]).id is Plugin),
        decreases player.fish_collection.len() - i,
    {
        if player.fish_collection[i].id.is_plugin() {
            assert(player@.fish_collection[i as int].id is Plugin);
            return true;
        }
        i += 1;
    }
    false
}

/// The achievements that are due in the player's state.
pub fn find_due(player: &PlayerState, registry: &FishRegistry) -> (r: Vec<&'static str>)
    ensures
        strs_view(r@) == due_achievements(player@, registry@),
{
    let all = FishId::all_with_plugins(registry);
    proof {
        assert(all@.len() == fish_ids_view(all@).len());
        assert forall|i: int| 0 <= i < all@.len() implies all_ids(registry@)[i] == (
        #[trigger] all@[i])@ by {
            assert(fish_ids_view(all@)[i] == all@[i]@);
        }
    }
    let caught_all = every_fish_caught(player, &all);
    let friends_all = every_fish_friend(player, &all);
    assert(caught_all == all_caught(player@, registry@)) by {
        if caught_all {
            assert forall|i: int| 0 <= i < all_ids(registry@).len() implies player@.has_caught(
                #[trigger] all_ids(registry@)[i],
            ) by {
                assert(player@.has_caught(all@[i]@));
            }
        } else {
            if all_caught(player@, registry@) {
                assert forall|i: int| 0 <= i < all@.len() implies player@.has_caught(
                    #[trigger] all@[i]@,
                ) by {
                    assert(player@.has_caught(all_ids(registry@)[i]));
                }
            }
        }
    }
    assert(friends_all == all_friends(player@, registry@)) by {
        if friends_all {
            assert forall|i: int| 0 <= i < all_ids(registry@).len() implies score_of(
                player@.relationship_scores,
                #[trigger] all_ids(registry@)[i],
            ) >= FRIEND_SCORE by {
                assert(score_of(player@.relationship_scores, all@[i]@) >= FRIEND_SCORE);
            }
        } else {
            if all_friends(player@, registry@) {
                assert forall|i: int| 0 <= i < all@.len() implies score_of(
                    player@.relationship_scores,
                    #[trigger] all@[i]@,
                ) >= FRIEND_SCORE by {
                    assert(score_of(player@.relationship_scores, all_ids(registry@)[i])
                        >= FRIEND_SCORE);
                }
            }
        }
    }
    let mut due: Vec<&'static str> = Vec::new();
    assert(strs_view(due@) =~= Seq::empty());
    if player.fish_collection.len() > 0 {
        let ghost before = strs_view(due@);
        due.push(ids::FIRST_CATCH);
        assert(strs_view(due@) =~= before.push(ids::FIRST_CATCH@));
    }
    if player.fish_collection.len() >= 50 {
        let ghost before = strs_view(due@);
        due.push(ids::CATCH_50);
        assert(strs_view(due@) =~= before.push(ids::CATCH_50@));
    }
    if caught_all {
        let ghost before = strs_view(due@);
        due.push(ids::CATCH_ALL);
        assert(strs_view(due@) =~= before.push(ids::CATCH_ALL@));
    }
    if any_plugin_catch(player) {
        let ghost before = strs_view(due@);
        due.push(ids::PLUGIN_FISH);
        assert(strs_view(due@) =~= before.push(ids::PLUGIN_FISH@));
    }
    if player.dates_completed >= 1 {
        let ghost before = strs_view(due@);
        due.push(ids::FIRST_DATE);
        assert(strs_view(due@) =~= before.push(ids::FIRST_DATE@));
    }
    if player.dates_completed >= 10 {
        let ghost before = strs_view(due@);
        due.push(ids::DATE_10);
        assert(strs_view(due@) =~= before.push(ids::DATE_10@));
    }
    if player.has_won() {
        let ghost before = strs_view(due@);
        due.push(ids::SOULMATE);
        assert(strs_view(due@) =~= before.push(ids::SOULMATE@));
    }
    if friends_all {
        let ghost before = strs_view(due@);
        due.push(ids::ALL_FRIENDS);
        assert(strs_view(due@) =~= before.push(ids::ALL_FRIENDS@));
    }
    if player.current_day >= 30 {
        let ghost before = strs_view(due@);
        due.push(ids::DAY_30);
        assert(strs_view(due@) =~= before.push(ids::DAY_30@));
    }
    due
}

/// Unlocks each of `due` and returns those that were news, in order.
pub fn unlock_all(unlocked: &mut UnlockedAchievements, due: &Vec<&'static str>) -> (r: Vec<
    &'static str,
>)
    ensures
        final(unlocked)@ == unlock_each(old(unlocked)@, strs_view(due@)),
        strs_view(r@) == newly_unlocked(old(unlocked)@, strs_view(due@)),
{
    let ghost start = unlocked@;
    let ghost all = strs_view(due@);
    let mut news: Vec<&'static str> = Vec::new();
    let mut i: usize = 0;
    assert(all.take(0) =~= Seq::empty());
    assert(strs_view(news@) =~= Seq::empty());
    while i < due.len()
        invariant
            i <= due.len(),
            all == strs_view(due@),
            unlocked@ == unlock_each(start, all.take(i as int)),
            strs_view(news@) == newly_unlocked(start, all.take(i as int)),
        decreases due.len() - i,
    {
        assert(all.take(i + 1).drop_last() =~= all.take(i as int));
        assert(all.take(i + 1).last() == due@[i as int]@);
        if unlocked.unlock(due[i]) {
            let ghost before = strs_view(news@);
            news.push(due[i]);
            assert(strs_view(news@) =~= before.push(due@[i as int]@));
        }
        i += 1;
    }
    assert(all.take(i as int) =~= all);
    news
}

/// Looks for the achievements that are due in the player's state, unlocks
/// them, and returns those that were news, in the order in which they are
/// looked for. Nothing else of the player's state changes.
pub fn check_state(player: &mut PlayerState, registry: &FishRegistry) -> (r: Vec<&'static str>)
    ensures
        final(player)@ == (PlayerView {
            achievements: unlock_each(
                old(player)@.achievements,
                due_achievements(old(player)@, registry@),
            ),
            ..old(player)@
        }),
        strs_view(r@) == newly_unlocked(
            old(player)@.achievements,
            due_achievements(old(player)@, registry@),
        ),
{
    let due = find_due(player, registry);
    unlock_all(&mut player.achievements, &due)
}

/// Unlocks the achievement for a large catch, if `size` is large. Returns
/// whether that was news.
pub fn on_catch_size(size: FishSize, unlocked: &mut UnlockedAchievements) -> (r: bool)
    ensures
        (final(unlocked)@, r) == if size == FishSize::Large {
            unlock_id(old(unlocked)@, ids::BIG_CATCH@)
        } else {
            (old(unlocked)@, false)
        },
{
    match size {
        FishSize::Large => unlocked.unlock(ids::BIG_CATCH),
        _ => false,
    }
}

/// Unlocks the achievement for the discovery of the moon battle. Returns
/// whether that was news.
pub fn on_moon_battle_started(unlocked: &mut UnlockedAchievements) -> (r: bool)
    ensures
        (final(unlocked)@, r) == unlock_id(old(unlocked)@, ids::MOON_BATTLE@),
{
    unlocked.unlock(ids::MOON_BATTLE)
}

/// Unlocks the achievement for the victory over the moon. Returns whether
/// that was news.
pub fn on_moon_victory(unlocked: &mut UnlockedAchievements) -> (r: bool)
    ensures
        (final(unlocked)@, r) == unlock_id(old(unlocked)@, ids::MOON_VICTORY@),
{
    unlocked.unlock(ids::MOON_VICTORY)
}

/// The number of achievements that are unlocked.
pub fn unlocked_count(unlocked: &UnlockedAchievements) -> (r: usize)
    ensures
        r == unlocked@.len(),
{
    unlocked.count()
}

} // verus!
