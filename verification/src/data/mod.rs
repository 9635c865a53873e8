//! The player's state and the identities of the characters.

pub mod dialogues;
pub mod fish_id;
pub mod player;
pub mod table;
