//! A fish dating game, without its window: the conversations of the dates,
//! the characters that scripts add, and the rules of the game around them.
//!
//! - [`dialogue`]: conversation graphs, their validation, and the runner that
//!   walks a graph step by step while it keeps variables and queues events.
//! - [`plugins`]: the reduced form of a conversation that scripts build, the
//!   record of a character that a script submits, the registry of those
//!   characters, and the loader that runs the scripts.
//! - [`data`]: who the characters are, what the player has caught and how
//!   the characters feel about it, and the built-in conversations.
//! - [`dating`], [`fishing`], [`easter_egg`], [`game`], [`achievements`]:
//!   what the screens of the game decide when a key is pressed, and what
//!   follows from the player's state.
//! - [`ui`]: menus and the layout of text.
//!
//! Every type has a view, its mathematical value, and every function says in
//! its contract what it does to those values.

pub mod achievements;
pub mod ascii_art;
pub mod data;
pub mod dating;
pub mod dialogue;
pub mod easter_egg;
pub mod fishing;
pub mod game;
pub mod input;
pub mod plugins;
pub mod search;
pub mod ui;
