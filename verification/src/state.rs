use vstd::prelude::*;

verus! {

/// Whether the session is still being played.
#[derive(Debug, Clone, Copy, PartialEq, Eq, Structural)]
pub enum GameState {
    Playing,
    GameOver,
}

impl Default for GameState {
    fn default() -> (state: GameState)
        ensures
            state == GameState::Playing,
    {
        GameState::Playing
    }
}

} // verus!
