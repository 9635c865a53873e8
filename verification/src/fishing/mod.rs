//! Fishing: the choice of a pond and the keys of the minigame.

pub mod minigame;
pub mod pond;
