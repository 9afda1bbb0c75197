use roguelike::color::Color;
use roguelike::control::handle_keys;
use roguelike::control::loop_transition;
use roguelike::control::Action;
use roguelike::control::Key;
use roguelike::control::KeyCode;
use roguelike::control::LoopState;
use roguelike::game::Game;
use roguelike::object::Object;

fn white() -> Color {
    Color { r: 255, g: 255, b: 255 }
}

fn key(code: KeyCode) -> Key {
    Key { code, alt: false }
}

#[test]
fn direction_keys_move_the_player() {
    let game = Game::new();
    // (25, 20) is strictly inside the first room; all four neighbors are
    // clear.
    for (code, dx, dy) in [
        (KeyCode::Up, 0, -1),
        (KeyCode::Down, 0, 1),
        (KeyCode::Left, -1, 0),
        (KeyCode::Right, 1, 0),
    ] {
        let mut player = Object::new(25, 20, '@', white());
        let action = handle_keys(key(code), &game, &mut player);
        assert_eq!(action, Action::Stay);
        assert_eq!((player.x, player.y), (25 + dx, 20 + dy));
    }
}

#[test]
fn direction_key_against_wall_stays() {
    let game = Game::new();
    // (21, 16) is the room's inner corner; left and up are wall border.
    let mut player = Object::new(21, 16, '@', white());
    let action = handle_keys(key(KeyCode::Left), &game, &mut player);
    assert_eq!(action, Action::Stay);
    assert_eq!((player.x, player.y), (21, 16));
    let action = handle_keys(key(KeyCode::Up), &game, &mut player);
    assert_eq!(action, Action::Stay);
    assert_eq!((player.x, player.y), (21, 16));
}

#[test]
fn escape_requests_exit() {
    let game = Game::new();
    let mut player = Object::new(25, 20, '@', white());
    let action = handle_keys(key(KeyCode::Escape), &game, &mut player);
    assert_eq!(action, Action::Exit);
    assert_eq!((player.x, player.y), (25, 20));
}

#[test]
fn alt_enter_requests_fullscreen_toggle() {
    let game = Game::new();
    let mut player = Object::new(25, 20, '@', white());
    let action = handle_keys(Key { code: KeyCode::Enter, alt: true }, &game, &mut player);
    assert_eq!(action, Action::ToggleFullscreen);
    assert_eq!((player.x, player.y), (25, 20));
}

#[test]
fn plain_enter_and_other_keys_do_nothing() {
    let game = Game::new();
    let mut player = Object::new(25, 20, '@', white());
    assert_eq!(handle_keys(key(KeyCode::Enter), &game, &mut player), Action::Stay);
    assert_eq!(handle_keys(key(KeyCode::Other), &game, &mut player), Action::Stay);
    assert_eq!((player.x, player.y), (25, 20));
}

#[test]
fn cancel_key_transitions_running_to_exiting() {
    // The cancel key's Exit action ends the loop on the next check.
    let game = Game::new();
    let mut player = Object::new(25, 20, '@', white());
    let action = handle_keys(key(KeyCode::Escape), &game, &mut player);
    let next = loop_transition(LoopState::Running, false, action);
    assert_eq!(next, LoopState::Exiting);
}

#[test]
fn exiting_is_terminal() {
    // Once exiting, no event and no window state resumes the loop: no
    // further frame renders.
    for closed in [false, true] {
        for action in [Action::Stay, Action::ToggleFullscreen, Action::Exit] {
            assert_eq!(loop_transition(LoopState::Exiting, closed, action), LoopState::Exiting);
        }
    }
}

#[test]
fn window_close_request_exits() {
    assert_eq!(loop_transition(LoopState::Running, true, Action::Stay), LoopState::Exiting);
}

#[test]
fn ordinary_frame_keeps_running() {
    assert_eq!(loop_transition(LoopState::Running, false, Action::Stay), LoopState::Running);
    assert_eq!(
        loop_transition(LoopState::Running, false, Action::ToggleFullscreen),
        LoopState::Running
    );
}
