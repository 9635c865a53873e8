//! The ids of the achievements.

use vstd::prelude::*;

verus! {

pub const FIRST_CATCH: &'static str = "ACH_FIRST_CATCH";

pub const CATCH_ALL: &'static str = "ACH_CATCH_ALL";

pub const FIRST_DATE: &'static str = "ACH_FIRST_DATE";

pub const DATE_10: &'static str = "ACH_DATE_10";

pub const SOULMATE: &'static str = "ACH_SOULMATE";

pub const ALL_FRIENDS: &'static str = "ACH_ALL_FRIENDS";

pub const BIG_CATCH: &'static str = "ACH_BIG_CATCH";

pub const MOON_BATTLE: &'static str = "ACH_MOON_BATTLE";

pub const MOON_VICTORY: &'static str = "ACH_MOON_VICTORY";

pub const DAY_30: &'static str = "ACH_DAY_30";

pub const CATCH_50: &'static str = "ACH_CATCH_50";

pub const PLUGIN_FISH: &'static str = "ACH_PLUGIN_FISH";

} // verus!
