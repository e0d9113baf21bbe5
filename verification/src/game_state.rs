//! The two-variant play/pause state of the sandbox.

use vstd::prelude::*;

verus! {

/// Whether the simulation is paused (the grid may be edited by the pointer)
/// or running (the grid advances one generation per rate tick).
#[derive(Clone, Copy, PartialEq, Eq, Structural, Debug)]
pub enum GameState {
    Pause,
    Play,
}

impl GameState {
    /// The opposite state.
    pub open spec fn spec_toggled(self) -> GameState {
        match self {
            GameState::Pause => GameState::Play,
            GameState::Play => GameState::Pause,
        }
    }

    /// Pure pause/play flip.
    pub fn toggled(self) -> (r: GameState)
        ensures
            r == self.spec_toggled(),
    {
        match self {
            GameState::Pause => GameState::Play,
            GameState::Play => GameState::Pause,
        }
    }
}

} // verus!
