//! The rules of the game around fishing and dating: what the main menu
//! offers, who can be dated, and what a catch and a date do to the player's
//! state.

use crate::data::fish_id::{all_ids, fish_ids_view, FishId, FishIdView};
use crate::data::player::{
    dates_of, relationship_label, relationship_label_text, score_after, score_of, CaughtFishView,
    FishSize, PlayerState, PlayerView,
};
use crate::fishing::pond::{pond_name_at, pond_name_of};
use crate::input::Key;
use crate::plugins::fish_def::FishDefView;
use crate::plugins::registry::FishRegistry;
use vstd::prelude::*;

verus! {

/// The items of the main menu when the game starts: everything where a
/// saved game exists, and only fishing and quitting where none does.
pub open spec fn start_menu(has_save: bool) -> Seq<Seq<char>> {
    if has_save {
        seq!["Go Fishing"@, "Go on a Date"@, "Fish Collection"@, "New Game"@, "Quit"@]
    } else {
        seq!["Go Fishing"@, "Quit"@]
    }
}

/// The items of the main menu during the game: dating and the collection
/// are offered once a fish was caught.
pub open spec fn main_menu(has_fish: bool) -> Seq<Seq<char>> {
    if has_fish {
        seq!["Go Fishing"@, "Go on a Date"@, "Fish Collection"@, "Save Game"@, "Quit"@]
    } else {
        seq!["Go Fishing"@, "Save Game"@, "Quit"@]
    }
}

/// The views of a sequence of strings.
pub open spec fn strings_view(s: Seq<String>) -> Seq<Seq<char>> {
    Seq::new(s.len(), |i: int| s[i]@)
}

/// The items of the main menu when the game starts.
pub fn start_menu_items(has_save: bool) -> (items: Vec<String>)
    ensures
        strings_view(items@) == start_menu(has_save),
{
    let mut items: Vec<String> = Vec::new();
    items.push("Go Fishing".to_owned());
    if has_save {
        items.push("Go on a Date".to_owned());
        items.push("Fish Collection".to_owned());
        items.push("New Game".to_owned());
    }
    items.push("Quit".to_owned());
    assert(strings_view(items@) =~= start_menu(has_save));
    items
}

/// The items of the main menu during the game.
pub fn main_menu_items(has_fish: bool) -> (items: Vec<String>)
    ensures
        strings_view(items@) == main_menu(has_fish),
{
    let mut items: Vec<String> = Vec::new();
    items.push("Go Fishing".to_owned());
    if has_fish {
        items.push("Go on a Date".to_owned());
        items.push("Fish Collection".to_owned());
    }
    items.push("Save Game".to_owned());
    items.push("Quit".to_owned());
    assert(strings_view(items@) =~= main_menu(has_fish));
    items
}

/// What an item of the main menu asks for.
#[derive(Debug, Clone, Copy, PartialEq, Eq, Structural)]
pub enum MenuCommand {
    GoFishing,
    GoOnDate,
    FishCollection,
    SaveGame,
    NewGame,
    Quit,
    /// The item is none of the main menu.
    Nothing,
}

/// What the item `item` asks for. The items are tried in the order of the
/// variants.
pub open spec fn command_of(item: Seq<char>) -> MenuCommand {
    if item == "Go Fishing"@ {
        MenuCommand::GoFishing
    } else if item == "Go on a Date"@ {
        MenuCommand::GoOnDate
    } else if item == "Fish Collection"@ {
        MenuCommand::FishCollection
    } else if item == "Save Game"@ {
        MenuCommand::SaveGame
    } else if item == "New Game"@ {
        MenuCommand::NewGame
    } else if item == "Quit"@ {
        MenuCommand::Quit
    } else {
        MenuCommand::Nothing
    }
}

/// What the item `item` of the main menu asks for.
pub fn menu_command(item: &str) -> (c: MenuCommand)
    ensures
        c == command_of(item@),
{
    let item = item.to_owned();
    if item == "Go Fishing".to_owned() {
        MenuCommand::GoFishing
    } else if item == "Go on a Date".to_owned() {
        MenuCommand::GoOnDate
    } else if item == "Fish Collection".to_owned() {
        MenuCommand::FishCollection
    } else if item == "Save Game".to_owned() {
        MenuCommand::SaveGame
    } else if item == "New Game".to_owned() {
        MenuCommand::NewGame
    } else if item == "Quit".to_owned() {
        MenuCommand::Quit
    } else {
        MenuCommand::Nothing
    }
}

/// Those of `ids` that the player has caught, in order.
pub open spec fn caught_among(player: PlayerView, ids: Seq<FishIdView>) -> Seq<FishIdView>
    decreases ids.len(),
{
    if ids.len() == 0 {
        Seq::empty()
    } else {
        let before = caught_among(player, ids.drop_last());
        if player.has_caught(ids.last()) {
            before.push(ids.last())
        } else {
            before
        }
    }
}

/// The characters that can be dated: those that the player has caught, the
/// built-in ones first.
pub open spec fn dateable(player: PlayerView, registry: Seq<FishDefView>) -> Seq<FishIdView> {
    caught_among(player, all_ids(registry))
}

/// The characters that can be dated.
pub fn dateable_fish(player: &PlayerState, registry: &FishRegistry) -> (r: Vec<FishId>)
    ensures
        fish_ids_view(r@) == dateable(player@, registry@),
{
    let all = FishId::all_with_plugins(registry);
    let ghost ids = all_ids(registry@);
    let mut out: Vec<FishId> = Vec::new();
    let mut i: usize = 0;
    assert(ids.take(0) =~= Seq::empty());
    assert(fish_ids_view(out@) =~= Seq::empty());
    assert(all@.len() == fish_ids_view(all@).len());
    while i < all.len()
        invariant
            i <= all.len() == ids.len(),
            ids == fish_ids_view(all@),
            fish_ids_view(out@) == caught_among(player@, ids.take(i as int)),
        decreases all.len() - i,
    {
        let ghost before = fish_ids_view(out@);
        assert(ids.take(i + 1).drop_last() =~= ids.take(i as int));
        assert(ids.take(i + 1).last() == all@[i as int]@);
        if player.has_caught(&all[i]) {
            out.push(all[i].copy());
            assert(fish_ids_view(out@) =~= before.push(all@[i as int]@));
        }
        i += 1;
    }
    assert(ids.take(i as int) =~= ids);
    out
}

/// The decimal form of an integer: what `i32::to_string` of the standard
/// library returns for it.
pub uninterp spec fn decimal_of(value: int) -> Seq<char>;

/// Calls `i32::to_string` of the standard library. Nothing is proved of the
/// result; it is only given the name `decimal_of`.
#[verifier::external_body]
fn decimal(value: i32) -> (r: String)
    ensures
        r@ == decimal_of(value as int),
{
    value.to_string()
}

/// The line of a character in the menu of the dates: name, species,
/// the word for the relationship, and the score.
pub open spec fn date_label(name: Seq<char>, species: Seq<char>, score: int) -> Seq<char> {
    name + " ("@ + species + ") - "@ + relationship_label_text(score) + " ["@ + decimal_of(score)
        + "]"@
}

/// The lines of the menu of the dates, one for each character that can be
/// dated.
pub fn date_menu_items(player: &PlayerState, registry: &FishRegistry) -> (items: Vec<String>)
    ensures
        items@.len() == dateable(player@, registry@).len(),
        forall|i: int|
            0 <= i < items@.len() ==> (#[trigger] items@[i])@ == date_label(
                dateable(player@, registry@)[i].name_in(registry@),
                dateable(player@, registry@)[i].species_in(registry@),
                score_of(player@.relationship_scores, dateable(player@, registry@)[i]),
            ),
{
    let fish = dateable_fish(player, registry);
    let ghost ids = dateable(player@, registry@);
    let mut items: Vec<String> = Vec::new();
    let mut i: usize = 0;
    assert(fish@.len() == fish_ids_view(fish@).len());
    while i < fish.len()
        invariant
            i <= fish.len() == ids.len(),
            ids == fish_ids_view(fish@),
            items@.len() == i,
            forall|k: int|
                0 <= k < i ==> (#[trigger] items@[k])@ == date_label(
                    ids[k].name_in(registry@),
                    ids[k].species_in(registry@),
                    score_of(player@.relationship_scores, ids[k]),
                ),
        decreases fish.len() - i,
    {
        assert(ids[i as int] == fish@[i as int]@);
        let score = player.relationship(&fish[i]);
        let line = fish[i].name_with_registry(registry).concat(" (").concat(
            fish[i].species_with_registry(registry).as_str(),
        ).concat(") - ").concat(relationship_label(score)).concat(" [").concat(
            decimal(score).as_str(),
        ).concat("]");
        items.push(line);
        i += 1;
    }
    items
}

/// The player's state after a catch of `fish_id` in the pond with the index
/// `pond_index`: the catch is recorded, and the character's score rises by
/// one.
pub open spec fn after_catch(
    player: PlayerView,
    fish_id: FishIdView,
    pond_index: int,
    size: FishSize,
    registry: Seq<FishDefView>,
) -> PlayerView {
    PlayerView {
        fish_collection: player.fish_collection.push(
            CaughtFishView { id: fish_id, caught_at: pond_name_of(pond_index, registry), size },
        ),
        relationship_scores: player.relationship_scores.insert(
            fish_id,
            score_after(player.relationship_scores, fish_id, 1) as i32,
        ),
        ..player
    }
}

/// Records a catch.
pub fn commit_catch(
    player: &mut PlayerState,
    fish_id: &FishId,
    pond_index: usize,
    size: FishSize,
    registry: &FishRegistry,
)
    requires
        score_of(old(player)@.relationship_scores, fish_id@) < i32::MAX,
    ensures
        final(player)@ == after_catch(old(player)@, fish_id@, pond_index as int, size, registry@),
{
    let pond_name = pond_name_at(pond_index, registry);
    player.add_catch(fish_id.copy(), pond_name.as_str(), size);
    player.add_affection(fish_id.copy(), 1);
}

/// The player's state after a date with `fish_id` that gained `affection`:
/// the score changes by what was gained, the dates with the character and
/// the dates altogether are counted, and a day has passed.
pub open spec fn after_date(player: PlayerView, fish_id: FishIdView, affection: int) -> PlayerView {
    PlayerView {
        relationship_scores: player.relationship_scores.insert(
            fish_id,
            score_after(player.relationship_scores, fish_id, affection) as i32,
        ),
        date_counts: player.date_counts.insert(
            fish_id,
            (dates_of(player.date_counts, fish_id) + 1) as u32,
        ),
        dates_completed: (player.dates_completed + 1) as u32,
        current_day: (player.current_day + 1) as u32,
        ..player
    }
}

/// Whether a date with `fish_id` that gained `affection` can be recorded:
/// no count and no score leaves its range.
pub open spec fn can_commit_date(player: PlayerView, fish_id: FishIdView, affection: int) -> bool {
    &&& i32::MIN <= score_of(player.relationship_scores, fish_id) + affection <= i32::MAX
    &&& dates_of(player.date_counts, fish_id) < u32::MAX
    &&& player.dates_completed < u32::MAX
    &&& player.current_day < u32::MAX
}

/// Records a date.
pub fn commit_date(player: &mut PlayerState, fish_id: &FishId, affection: i32)
    requires
        can_commit_date(old(player)@, fish_id@, affection as int),
    ensures
        final(player)@ == after_date(old(player)@, fish_id@, affection as int),
{
    player.add_affection(fish_id.copy(), affection);
    player.increment_date_count(fish_id.copy());
    player.dates_completed += 1;
    player.current_day += 1;
}

/// Whether a date with `fish_id` that gained `affection` can be recorded.
pub fn date_fits(player: &PlayerState, fish_id: &FishId, affection: i32) -> (r: bool)
    ensures
        r == can_commit_date(player@, fish_id@, affection as int),
{
    let sum: i64 = player.relationship(fish_id) as i64 + affection as i64;
    sum >= i32::MIN as i64 && sum <= i32::MAX as i64 && player.date_count(fish_id) < u32::MAX
        && player.dates_completed < u32::MAX && player.current_day < u32::MAX
}

/// Where the game goes after the result of a catch or of a date.
#[derive(Debug, Clone, Copy, PartialEq, Eq, Structural)]
pub enum AfterResult {
    GameOver,
    MainMenu,
}

/// Where the game goes after a result: to its end once the player has won,
/// and back to the main menu otherwise.
pub fn after_result(player: &PlayerState) -> (r: AfterResult)
    ensures
        r == if player@.has_won() {
            AfterResult::GameOver
        } else {
            AfterResult::MainMenu
        },
{
    if player.has_won() {
        AfterResult::GameOver
    } else {
        AfterResult::MainMenu
    }
}

/// The list of the collection after a key: how far it is scrolled, and
/// whether the list is left for the main menu. Escape and enter leave; the
/// cursor keys scroll, up no further than the top.
pub open spec fn collection_after(scroll: int, key: Key) -> (int, bool) {
    if key == Key::Escape || key == Key::Enter {
        (scroll, true)
    } else if key.is_up() {
        (
            if scroll > 0 {
                scroll - 1
            } else {
                0
            },
            false,
        )
    } else if key.is_down() {
        (scroll + 1, false)
    } else {
        (scroll, false)
    }
}

/// Handles a key of the list of the collection.
pub fn update_collection(scroll: usize, key: Key) -> (r: (usize, bool))
    requires
        scroll < usize::MAX,
    ensures
        (r.0 as int, r.1) == collection_after(scroll as int, key),
{
    if key == Key::Escape || key == Key::Enter {
        (scroll, true)
    } else if key.moves_up() {
        (
            if scroll > 0 {
                scroll - 1
            } else {
                0
            },
            false,
        )
    } else if key.moves_down() {
        (scroll + 1, false)
    } else {
        (scroll, false)
    }
}

} // verus!
