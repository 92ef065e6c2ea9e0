//! The player's character and what it is doing.

use vstd::prelude::*;

verus! {

/// What the player's character is doing.
#[derive(Clone, Copy, Debug, PartialEq, Eq, Hash, Structural)]
pub enum PlayerOneState {
    Idle,
    Running,
}

impl Default for PlayerOneState {
    fn default() -> (r: PlayerOneState)
        ensures
            r == PlayerOneState::Idle,
    {
        PlayerOneState::Idle
    }
}

/// The player's character.
#[derive(Clone, Copy, Debug, PartialEq, Eq, Structural)]
pub struct PlayerOne {
    pub state: PlayerOneState,
}

impl PlayerOne {
    /// A character that stands idle.
    pub fn new() -> (r: PlayerOne)
        ensures
            r == (PlayerOne { state: PlayerOneState::Idle }),
    {
        PlayerOne { state: PlayerOneState::default() }
    }
}

} // verus!
