pub mod game;

pub use game::{start_game, GameState};
