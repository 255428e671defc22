use flappy::states::game::{start_game, GameState};

#[test]
fn the_game_waits_at_first() {
    assert_eq!(GameState::default(), GameState::Passive);
}

#[test]
fn the_jump_key_asks_for_play() {
    assert_eq!(start_game(true), Some(GameState::Playing));
}

#[test]
fn no_key_asks_for_nothing() {
    assert_eq!(start_game(false), None);
}

#[test]
fn the_jump_key_starts_the_game() {
    assert_eq!(GameState::Passive.after_input(true), GameState::Playing);
    assert_eq!(GameState::Passive.after_input(false), GameState::Passive);
}

#[test]
fn play_goes_on_whatever_the_key_does() {
    assert_eq!(GameState::Playing.after_input(true), GameState::Playing);
    assert_eq!(GameState::Playing.after_input(false), GameState::Playing);
}

#[test]
fn the_state_is_reached_through_the_parent_module_too() {
    let state: flappy::states::GameState = GameState::Playing;
    assert_eq!(flappy::states::start_game(true), Some(state));
}
