use vstd::prelude::*;

verus! {

/// Whether the game is waiting for the first jump or is running.
#[derive(Debug, Clone, Copy, PartialEq, Eq, Hash, Structural)]
pub enum GameState {
    Passive,
    Playing,
}

impl Default for GameState {
    fn default() -> (state: Self)
        ensures
            state == GameState::Passive,
    {
        GameState::Passive
    }
}

impl GameState {
    /// The state that follows `self` once this frame's jump key is known.
    pub open spec fn spec_after_input(self, jump_pressed: bool) -> GameState {
        match start_game_request(jump_pressed) {
            Some(state) => state,
            None => self,
        }
    }

    /// The state after a frame: the one asked for, if any, else the same.
    pub fn after_input(self, jump_pressed: bool) -> (next: GameState)
        ensures
            next == self.spec_after_input(jump_pressed),
            jump_pressed ==> next == GameState::Playing,
            !jump_pressed ==> next == self,
    {
        match start_game(jump_pressed) {
            Some(state) => state,
            None => self,
        }
    }
}

/// The state that a frame asks for: `Playing` when the jump key went down, none otherwise.
pub open spec fn start_game_request(jump_pressed: bool) -> Option<GameState> {
    if jump_pressed {
        Some(GameState::Playing)
    } else {
        None
    }
}

/// Asks for the running state when the jump key went down in this frame.
pub fn start_game(jump_pressed: bool) -> (request: Option<GameState>)
    ensures
        request == start_game_request(jump_pressed),
{
    if jump_pressed {
        Some(GameState::Playing)
    } else {
        None
    }
}

} // verus!
