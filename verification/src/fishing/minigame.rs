//! The keys of the fishing minigame.
//!
//! The fight with the fish is a matter of timing and chance and is not told
//! here. What is told here is what a key means in each phase of the
//! minigame.

use crate::input::Key;
use vstd::prelude::*;

verus! {

/// A phase of the minigame.
#[derive(Debug, Clone, Copy, PartialEq, Eq, Structural)]
pub enum Phase {
    Casting,
    Waiting,
    Reeling,
    Result,
}

/// Which way the player pulls the line.
#[derive(Debug, Clone, Copy, PartialEq, Eq, Structural)]
pub enum Pull {
    Left,
    Right,
    Neither,
}

/// What a key asks for in the minigame.
#[derive(Debug, Clone, Copy, PartialEq, Eq, Structural)]
pub enum MinigameAction {
    /// Nothing.
    Stay,
    /// Go on to the result of the catch.
    ShowCatch,
    /// Go back to the choice of a pond.
    BackToPonds,
}

/// Which way a key pulls the line: A and the left arrow pull left, D and
/// the right arrow pull right.
pub open spec fn pull_of(key: Option<Key>) -> Pull {
    match key {
        Some(Key::KeyA) => Pull::Left,
        Some(Key::ArrowLeft) => Pull::Left,
        Some(Key::KeyD) => Pull::Right,
        Some(Key::ArrowRight) => Pull::Right,
        _ => Pull::Neither,
    }
}

/// What a key asks for in a phase. Once the result is shown, a confirming
/// key goes on to the catch if the fish was caught and back to the ponds if
/// it was not, and escape goes back to the ponds. Before that, escape cuts
/// the line and goes back to the ponds.
pub open spec fn action_of(phase: Phase, caught: bool, key: Option<Key>) -> MinigameAction {
    match key {
        Some(k) => {
            if phase == Phase::Result {
                if k.is_confirm() {
                    if caught {
                        MinigameAction::ShowCatch
                    } else {
                        MinigameAction::BackToPonds
                    }
                } else if k == Key::Escape {
                    MinigameAction::BackToPonds
                } else {
                    MinigameAction::Stay
                }
            } else if k == Key::Escape {
                MinigameAction::BackToPonds
            } else {
                MinigameAction::Stay
            }
        },
        None => MinigameAction::Stay,
    }
}

/// Which way a key pulls the line.
pub fn pull(key: Option<Key>) -> (r: Pull)
    ensures
        r == pull_of(key),
{
    match key {
        Some(Key::KeyA) => Pull::Left,
        Some(Key::ArrowLeft) => Pull::Left,
        Some(Key::KeyD) => Pull::Right,
        Some(Key::ArrowRight) => Pull::Right,
        _ => Pull::Neither,
    }
}

/// What a key asks for in a phase.
pub fn key_action(phase: Phase, caught: bool, key: Option<Key>) -> (r: MinigameAction)
    ensures
        r == action_of(phase, caught, key),
{
    match key {
        Some(k) => {
            if phase == Phase::Result {
                if k.confirms() {
                    if caught {
                        MinigameAction::ShowCatch
                    } else {
                        MinigameAction::BackToPonds
                    }
                } else if k == Key::Escape {
                    MinigameAction::BackToPonds
                } else {
                    MinigameAction::Stay
                }
            } else if k == Key::Escape {
                MinigameAction::BackToPonds
            } else {
                MinigameAction::Stay
            }
        },
        None => MinigameAction::Stay,
    }
}

} // verus!
