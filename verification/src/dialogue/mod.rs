//! Conversation graphs, their construction and their execution.

pub mod laws;
pub mod node;
pub mod runner;
pub mod tree;
pub mod variables;
