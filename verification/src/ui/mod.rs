//! Parts of the user interface that hold state or lay out text.

pub mod layout;
pub mod menu;
pub mod text;
