//! What is shown of a character: its picture, which follows its mood, and
//! the place of its dates.

use crate::ascii_art::{
    BUBBLES_ART, BUBBLES_HAPPY, BUBBLES_SHY, BUBBLES_SMALL, CORAL_CAFE, GILL_ART, GILL_PUFFED,
    GILL_SHY, GILL_SMALL, MARINA_ANGRY, MARINA_ART, MARINA_HAPPY, MARINA_SMALL, MOONLIT_REEF,
    SUNKEN_SHIP,
};
use crate::data::fish_id::{FishId, FishIdView};
use crate::plugins::fish_def::{art_for, FishDefView};
use crate::plugins::registry::{lookup_fish, FishRegistry};
use vstd::prelude::*;

verus! {

/// Which of three pictures goes with an affection: the first above 20, the
/// second above 10, the third otherwise.
pub open spec fn by_mood(affection: int, high: Seq<char>, middle: Seq<char>, low: Seq<char>) -> Seq<
    char,
> {
    if affection > 20 {
        high
    } else if affection > 10 {
        middle
    } else {
        low
    }
}

/// The large picture of a character at an affection.
pub open spec fn fish_art_of(id: FishIdView, affection: int, registry: Seq<FishDefView>) -> Seq<
    char,
> {
    match id {
        FishIdView::Bubbles => by_mood(affection, BUBBLES_HAPPY@, BUBBLES_ART@, BUBBLES_SHY@),
        FishIdView::Marina => by_mood(affection, MARINA_HAPPY@, MARINA_ART@, MARINA_ANGRY@),
        FishIdView::Gill => by_mood(affection, GILL_ART@, GILL_SHY@, GILL_PUFFED@),
        FishIdView::Plugin(plugin_id) => match lookup_fish(registry, plugin_id) {
            Some(fish) => art_for(fish, affection),
            None => "  ><(((o>"@,
        },
    }
}

/// The picture of the place where a character's dates are.
pub open spec fn date_scene_art_of(id: FishIdView, registry: Seq<FishDefView>) -> Seq<char> {
    match id {
        FishIdView::Bubbles => CORAL_CAFE@,
        FishIdView::Marina => MOONLIT_REEF@,
        FishIdView::Gill => SUNKEN_SHIP@,
        FishIdView::Plugin(plugin_id) => match lookup_fish(registry, plugin_id) {
            Some(fish) => fish.date_scene_art,
            None => "  ~~~~~~~~\n  ~ ~ ~ ~ ~\n  ~~~~~~~~"@,
        },
    }
}

/// The name of the place where a character's dates are.
pub open spec fn date_location_of(id: FishIdView, registry: Seq<FishDefView>) -> Seq<char> {
    match id {
        FishIdView::Bubbles => "Coral Cafe"@,
        FishIdView::Marina => "Moonlit Reef"@,
        FishIdView::Gill => "Sunken Ship"@,
        FishIdView::Plugin(plugin_id) => match lookup_fish(registry, plugin_id) {
            Some(fish) => fish.date_location,
            None => "The Deep"@,
        },
    }
}

/// The small picture of a character.
pub open spec fn fish_small_art_of(id: FishIdView, registry: Seq<FishDefView>) -> Seq<char> {
    match id {
        FishIdView::Bubbles => BUBBLES_SMALL@,
        FishIdView::Marina => MARINA_SMALL@,
        FishIdView::Gill => GILL_SMALL@,
        FishIdView::Plugin(plugin_id) => match lookup_fish(registry, plugin_id) {
            Some(fish) => fish.art_small,
            None => "><>"@,
        },
    }
}

/// The picture among three that goes with an affection.
fn pick_by_mood<'a>(affection: i32, high: &'a str, middle: &'a str, low: &'a str) -> (r: &'a str)
    ensures
        r@ == by_mood(affection as int, high@, middle@, low@),
{
    if affection > 20 {
        high
    } else if affection > 10 {
        middle
    } else {
        low
    }
}

/// The large picture of a character at an affection.
pub fn fish_art(id: &FishId, affection: i32, registry: &FishRegistry) -> (r: String)
    ensures
        r@ == fish_art_of(id@, affection as int, registry@),
{
    match id {
        FishId::Bubbles => pick_by_mood(affection, BUBBLES_HAPPY, BUBBLES_ART, BUBBLES_SHY).to_owned(),
        FishId::Marina => pick_by_mood(affection, MARINA_HAPPY, MARINA_ART, MARINA_ANGRY).to_owned(),
        FishId::Gill => pick_by_mood(affection, GILL_ART, GILL_SHY, GILL_PUFFED).to_owned(),
        FishId::Plugin(plugin_id) => match registry.get(plugin_id.as_str()) {
            Some(fish) => fish.art_for_affection(affection).to_owned(),
            None => "  ><(((o>".to_owned(),
        },
    }
}

/// The picture of the place where a character's dates are.
pub fn date_scene_art(id: &FishId, registry: &FishRegistry) -> (r: String)
    ensures
        r@ == date_scene_art_of(id@, registry@),
{
    match id {
        FishId::Bubbles => CORAL_CAFE.to_owned(),
        FishId::Marina => MOONLIT_REEF.to_owned(),
        FishId::Gill => SUNKEN_SHIP.to_owned(),
        FishId::Plugin(plugin_id) => match registry.get(plugin_id.as_str()) {
            Some(fish) => fish.date_scene_art.clone(),
            None => "  ~~~~~~~~\n  ~ ~ ~ ~ ~\n  ~~~~~~~~".to_owned(),
        },
    }
}

/// The name of the place where a character's dates are.
pub fn date_location(id: &FishId, registry: &FishRegistry) -> (r: String)
    ensures
        r@ == date_location_of(id@, registry@),
{
    match id {
        FishId::Bubbles => "Coral Cafe".to_owned(),
        FishId::Marina => "Moonlit Reef".to_owned(),
        FishId::Gill => "Sunken Ship".to_owned(),
        FishId::Plugin(plugin_id) => match registry.get(plugin_id.as_str()) {
            Some(fish) => fish.date_location.clone(),
            None => "The Deep".to_owned(),
        },
    }
}

/// The small picture of a character.
pub fn fish_small_art(id: &FishId, registry: &FishRegistry) -> (r: String)
    ensures
        r@ == fish_small_art_of(id@, registry@),
{
    match id {
        FishId::Bubbles => BUBBLES_SMALL.to_owned(),
        FishId::Marina => MARINA_SMALL.to_owned(),
        FishId::Gill => GILL_SMALL.to_owned(),
        FishId::Plugin(plugin_id) => match registry.get(plugin_id.as_str()) {
            Some(fish) => fish.art_small.clone(),
            None => "><>".to_owned(),
        },
    }
}

} // verus!
