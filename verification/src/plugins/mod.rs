//! Characters and conversations that scripts define.

pub mod dialogue_def;
pub mod engine;
pub mod fish_def;
pub mod loader;
pub mod registry;
pub mod script;
