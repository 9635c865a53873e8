//! The keys that the game reacts to.

use vstd::prelude::*;

verus! {

/// A key press. Keys that the game gives no meaning to are all `Other`.
#[derive(Debug, Clone, Copy, PartialEq, Eq, Structural)]
pub enum Key {
    ArrowUp,
    ArrowDown,
    ArrowLeft,
    ArrowRight,
    KeyA,
    KeyD,
    KeyM,
    KeyN,
    KeyO,
    KeyS,
    KeyW,
    Enter,
    Space,
    Escape,
    Other,
}

impl Key {
    /// Whether the key moves a cursor up.
    pub open spec fn is_up(self) -> bool {
        self == Key::ArrowUp || self == Key::KeyW
    }

    /// Whether the key moves a cursor down.
    pub open spec fn is_down(self) -> bool {
        self == Key::ArrowDown || self == Key::KeyS
    }

    /// Whether the key confirms.
    pub open spec fn is_confirm(self) -> bool {
        self == Key::Enter || self == Key::Space
    }

    /// Whether the key moves a cursor up.
    pub fn moves_up(&self) -> (r: bool)
        ensures
            r == self.is_up(),
    {
        match self {
            Key::ArrowUp => true,
            Key::KeyW => true,
            _ => false,
        }
    }

    /// Whether the key moves a cursor down.
    pub fn moves_down(&self) -> (r: bool)
        ensures
            r == self.is_down(),
    {
        match self {
            Key::ArrowDown => true,
            Key::KeyS => true,
            _ => false,
        }
    }

    /// Whether the key confirms.
    pub fn confirms(&self) -> (r: bool)
        ensures
            r == self.is_confirm(),
    {
        match self {
            Key::Enter => true,
            Key::Space => true,
            _ => false,
        }
    }
}

} // verus!
