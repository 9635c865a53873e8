//! The catalog of the achievements: what each is called and what it is for.

use crate::achievements::ids;
use vstd::prelude::*;

verus! {

/// What is shown of an achievement.
#[derive(Debug, Clone, Copy)]
pub struct AchievementDef {
    pub id: &'static str,
    pub name: &'static str,
    pub description: &'static str,
    /// Whether the achievement is kept secret until it is unlocked.
    pub hidden: bool,
}

/// The number of achievements.
pub const ACHIEVEMENT_COUNT: usize = 12;

/// The mathematical value of an [`AchievementDef`].
pub struct AchievementView {
    pub id: Seq<char>,
    pub name: Seq<char>,
    pub description: Seq<char>,
    pub hidden: bool,
}

impl View for AchievementDef {
    type V = AchievementView;

    open spec fn view(&self) -> AchievementView {
        AchievementView {
            id: self.id@,
            name: self.name@,
            description: self.description@,
            hidden: self.hidden,
        }
    }
}

/// The achievement at `index` of the catalog. The two of the moon are
/// hidden.
pub open spec fn catalog(index: int) -> AchievementView {
    if index == 0 {
        AchievementView {
            id: ids::FIRST_CATCH@,
            name: "Gone Fishin'"@,
            description: "Catch your first fish."@,
            hidden: false,
        }
    } else if index == 1 {
        AchievementView {
            id: ids::CATCH_ALL@,
            name: "Gotta Catch 'Em All"@,
            description: "Catch every species of fish."@,
            hidden: false,
        }
    } else if index == 2 {
        AchievementView {
            id: ids::FIRST_DATE@,
            name: "Testing the Waters"@,
            description: "Go on your first date."@,
            hidden: false,
        }
    } else if index == 3 {
        AchievementView {
            id: ids::DATE_10@,
            name: "Serial Dater"@,
            description: "Go on 10 dates."@,
            hidden: false,
        }
    } else if index == 4 {
        AchievementView {
            id: ids::SOULMATE@,
            name: "Fish Soulmate"@,
            description: "Reach soulmate status with any fish."@,
            hidden: false,
        }
    } else if index == 5 {
        AchievementView {
            id: ids::ALL_FRIENDS@,
            name: "Social Butterfly...fish"@,
            description: "Become friends with every fish."@,
            hidden: false,
        }
    } else if index == 6 {
        AchievementView {
            id: ids::BIG_CATCH@,
            name: "The Big One"@,
            description: "Catch a large fish."@,
            hidden: false,
        }
    } else if index == 7 {
        AchievementView {
            id: ids::MOON_BATTLE@,
            name: "That's No Moon..."@,
            description: "Discover the secret moon battle."@,
            hidden: true,
        }
    } else if index == 8 {
        AchievementView {
            id: ids::MOON_VICTORY@,
            name: "Moonslayer"@,
            description: "Defeat the moon in combat."@,
            hidden: true,
        }
    } else if index == 9 {
        AchievementView {
            id: ids::DAY_30@,
            name: "Dedicated Angler"@,
            description: "Play for 30 days."@,
            hidden: false,
        }
    } else if index == 10 {
        AchievementView {
            id: ids::CATCH_50@,
            name: "Fish Hoarder"@,
            description: "Catch 50 fish total."@,
            hidden: false,
        }
    } else {
        AchievementView {
            id: ids::PLUGIN_FISH@,
            name: "Modding Community"@,
            description: "Catch a plugin fish."@,
            hidden: false,
        }
    }
}

/// The id of the achievement at `index` of the catalog.
pub open spec fn catalog_id(index: int) -> Seq<char> {
    catalog(index).id
}

/// The achievement at `index` of the catalog.
pub fn achievement_at(index: usize) -> (def: AchievementDef)
    requires
        index < ACHIEVEMENT_COUNT,
    ensures
        def@ == catalog(index as int),
{
    if index == 0 {
        AchievementDef {
            id: ids::FIRST_CATCH,
            name: "Gone Fishin'",
            description: "Catch your first fish.",
            hidden: false,
        }
    } else if index == 1 {
        AchievementDef {
            id: ids::CATCH_ALL,
            name: "Gotta Catch 'Em All",
            description: "Catch every species of fish.",
            hidden: false,
        }
    } else if index == 2 {
        AchievementDef {
            id: ids::FIRST_DATE,
            name: "Testing the Waters",
            description: "Go on your first date.",
            hidden: false,
        }
    } else if index == 3 {
        AchievementDef {
            id: ids::DATE_10,
            name: "Serial Dater",
            description: "Go on 10 dates.",
            hidden: false,
        }
    } else if index == 4 {
        AchievementDef {
            id: ids::SOULMATE,
            name: "Fish Soulmate",
            description: "Reach soulmate status with any fish.",
            hidden: false,
        }
    } else if index == 5 {
        AchievementDef {
            id: ids::ALL_FRIENDS,
            name: "Social Butterfly...fish",
            description: "Become friends with every fish.",
            hidden: false,
        }
    } else if index == 6 {
        AchievementDef {
            id: ids::BIG_CATCH,
            name: "The Big One",
            description: "Catch a large fish.",
            hidden: false,
        }
    } else if index == 7 {
        AchievementDef {
            id: ids::MOON_BATTLE,
            name: "That's No Moon...",
            description: "Discover the secret moon battle.",
            hidden: true,
        }
    } else if index == 8 {
        AchievementDef {
            id: ids::MOON_VICTORY,
            name: "Moonslayer",
            description: "Defeat the moon in combat.",
            hidden: true,
        }
    } else if index == 9 {
        AchievementDef {
            id: ids::DAY_30,
            name: "Dedicated Angler",
            description: "Play for 30 days.",
            hidden: false,
        }
    } else if index == 10 {
        AchievementDef {
            id: ids::CATCH_50,
            name: "Fish Hoarder",
            description: "Catch 50 fish total.",
            hidden: false,
        }
    } else {
        AchievementDef {
            id: ids::PLUGIN_FISH,
            name: "Modding Community",
            description: "Catch a plugin fish.",
            hidden: false,
        }
    }
}

/// The position in the catalog of the first achievement with the id `id`.
pub open spec fn catalog_position(id: Seq<char>, from: int) -> Option<int>
    decreases ACHIEVEMENT_COUNT - from,
{
    if from >= ACHIEVEMENT_COUNT {
        None
    } else if catalog_id(from) == id {
        Some(from)
    } else {
        catalog_position(id, from + 1)
    }
}

/// The achievement with the id `id`, if the catalog has one.
pub fn find_achievement(id: &str) -> (r: Option<AchievementDef>)
    ensures
        match r {
            Some(def) => catalog_position(id@, 0) matches Some(k) && def@ == catalog(k) && def.id@
                == id@,
            None => catalog_position(id@, 0) is None,
        },
{
    let key = id.to_owned();
    let mut i: usize = 0;
    while i < ACHIEVEMENT_COUNT
        invariant
            i <= ACHIEVEMENT_COUNT,
            key@ == id@,
            catalog_position(id@, 0) == catalog_position(id@, i as int),
        decreases ACHIEVEMENT_COUNT - i,
    {
        let def = achievement_at(i);
        if def.id.to_owned() == key {
            return Some(def);
        }
        i += 1;
    }
    None
}

/// The number of achievements.
pub fn total_count() -> (r: usize)
    ensures
        r == ACHIEVEMENT_COUNT,
{
    ACHIEVEMENT_COUNT
}

} // verus!
