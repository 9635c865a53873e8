//! Achievements: which there are, which a player has, and when one is due.

pub mod catalog;
pub mod ids;
pub mod rules;
pub mod unlocked;
