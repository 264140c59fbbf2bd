use piston_window::{Key, MouseButton};
use tictactoe::game::{GameState, TicTacToe};
use tictactoe::globals::{PLACE_BUTTON, RESET_KEY, START_KEY};
use tictactoe::inputhandler::{InputEvent, InputHandler, InputKey};

#[test]
fn start_key_is_e() {
    assert_eq!(START_KEY, 0x65);
    assert_eq!(START_KEY, u32::from(Key::E));
}

#[test]
fn reset_key_is_r() {
    assert_eq!(RESET_KEY, 0x72);
    assert_eq!(RESET_KEY, u32::from(Key::R));
}

#[test]
fn place_button_is_the_left_one() {
    assert_eq!(PLACE_BUTTON, 1);
    assert_eq!(PLACE_BUTTON, u32::from(MouseButton::Left));
}

#[test]
fn game_answers_to_the_keys_of_the_platform() {
    let mut game = TicTacToe::new();
    let mut input = InputHandler::new();
    input.update(&InputEvent::Keyboard { key: u32::from(Key::R), state: InputKey::Pressed });
    input.update(&InputEvent::Mouse {
        button: u32::from(MouseButton::Right),
        state: InputKey::Pressed,
    });
    game.update(&mut input);
    assert_eq!(game.current_game_state(), GameState::Start);
    input.update(&InputEvent::Keyboard { key: u32::from(Key::E), state: InputKey::Pressed });
    game.update(&mut input);
    assert_eq!(game.current_game_state(), GameState::Playing);
    input.update(&InputEvent::CursorMoved { x: 10, y: 10 });
    game.update(&mut input);
    assert!(game.board()[0].can_set());
    input.update(&InputEvent::Mouse {
        button: u32::from(MouseButton::Left),
        state: InputKey::Pressed,
    });
    game.update(&mut input);
    assert!(!game.board()[0].can_set());
}
