//! The frame/input controller: translates one key event per frame into a
//! player move or an application command, and drives the two-state frame
//! loop. Waiting for the event and toggling the window are the shell's
//! side; every decision is made here.

use vstd::prelude::*;

use crate::game::Game;
use crate::object::Object;

verus! {

/// The discriminated key code the shell hands over, one event per frame.
#[derive(Clone, Copy, PartialEq, Eq, Structural, Debug)]
pub enum KeyCode {
    Up,
    Down,
    Left,
    Right,
    Enter,
    Escape,
    Other,
}

/// One keyboard event: a code plus the alt modifier flag.
#[derive(Clone, Copy, PartialEq, Eq, Structural, Debug)]
pub struct Key {
    pub code: KeyCode,
    pub alt: bool,
}

/// What the shell must do after a key was handled: keep looping, toggle
/// the window's fullscreen mode, or leave the loop.
#[derive(Clone, Copy, PartialEq, Eq, Structural, Debug)]
pub enum Action {
    Stay,
    ToggleFullscreen,
    Exit,
}

/// The two states of the frame loop. `Exiting` is terminal: no further
/// frame is rendered once it is reached.
#[derive(Clone, Copy, PartialEq, Eq, Structural, Debug)]
pub enum LoopState {
    Running,
    Exiting,
}

/// The candidate cell a directional key asks the player to enter stays on
/// the grid; keys that move nothing ask nothing. Out-of-bounds candidates
/// are a programming error of the caller, excluded by contract.
pub open spec fn key_move_in_bounds(key: Key, game: Game, player: Object) -> bool {
    match key.code {
        KeyCode::Up => game.in_bounds(player.x as int, player.y - 1),
        KeyCode::Down => game.in_bounds(player.x as int, player.y + 1),
        KeyCode::Left => game.in_bounds(player.x - 1, player.y as int),
        KeyCode::Right => game.in_bounds(player.x + 1, player.y as int),
        _ => true,
    }
}

/// Translate one key event: directional keys attempt the matching unit
/// move against the world, alt+enter asks the shell to toggle fullscreen,
/// the cancel key asks it to exit, anything else is a no-op.
pub fn handle_keys(key: Key, game: &Game, player: &mut Object) -> (action: Action)
    requires
        game.wf(),
        key_move_in_bounds(key, *game, *old(player)),
    ensures
        key.code == KeyCode::Up ==> Object::moved(*game, *old(player), *final(player), 0, -1)
            && action == Action::Stay,
        key.code == KeyCode::Down ==> Object::moved(*game, *old(player), *final(player), 0, 1)
            && action == Action::Stay,
        key.code == KeyCode::Left ==> Object::moved(*game, *old(player), *final(player), -1, 0)
            && action == Action::Stay,
        key.code == KeyCode::Right ==> Object::moved(*game, *old(player), *final(player), 1, 0)
            && action == Action::Stay,
        key.code == KeyCode::Enter && key.alt ==> *final(player) == *old(player) && action
            == Action::ToggleFullscreen,
        key.code == KeyCode::Enter && !key.alt ==> *final(player) == *old(player) && action
            == Action::Stay,
        key.code == KeyCode::Escape ==> *final(player) == *old(player) && action == Action::Exit,
        key.code == KeyCode::Other ==> *final(player) == *old(player) && action == Action::Stay,
{
    match key.code {
        KeyCode::Up => {
            player.move_by(game, 0, -1);
            Action::Stay
        },
        KeyCode::Down => {
            player.move_by(game, 0, 1);
            Action::Stay
        },
        KeyCode::Left => {
            player.move_by(game, -1, 0);
            Action::Stay
        },
        KeyCode::Right => {
            player.move_by(game, 1, 0);
            Action::Stay
        },
        KeyCode::Enter => {
            if key.alt {
                Action::ToggleFullscreen
            } else {
                Action::Stay
            }
        },
        KeyCode::Escape => Action::Exit,
        KeyCode::Other => Action::Stay,
    }
}

/// The loop state after one frame's checks: a reached `Exiting` persists,
/// a reported window close or an `Exit` action leaves the loop, and
/// anything else keeps it running.
pub open spec fn next_loop_state(state: LoopState, window_closed: bool, action: Action)
    -> LoopState {
    if state == LoopState::Exiting {
        LoopState::Exiting
    } else if window_closed {
        LoopState::Exiting
    } else if action == Action::Exit {
        LoopState::Exiting
    } else {
        LoopState::Running
    }
}

/// Advance the frame loop's state machine by one iteration, given whether
/// the host window reported a close request and what the handled key asked
/// for.
pub fn loop_transition(state: LoopState, window_closed: bool, action: Action) -> (next: LoopState)
    ensures
        next == next_loop_state(state, window_closed, action),
{
    match state {
        LoopState::Exiting => LoopState::Exiting,
        LoopState::Running => {
            if window_closed {
                LoopState::Exiting
            } else {
                match action {
                    Action::Exit => LoopState::Exiting,
                    _ => LoopState::Running,
                }
            }
        },
    }
}

/// The cancel key ends the loop: in the running state, an `Exit` action
/// moves the machine to `Exiting` on the next check.
pub proof fn lemma_cancel_exits(window_closed: bool)
    ensures
        next_loop_state(LoopState::Running, window_closed, Action::Exit) == LoopState::Exiting,
{
}

/// `Exiting` is absorbing: once reached, no event and no window state
/// brings the loop back, so no further frame renders.
pub proof fn lemma_exiting_is_terminal(window_closed: bool, action: Action)
    ensures
        next_loop_state(LoopState::Exiting, window_closed, action) == LoopState::Exiting,
{
}

} // verus!
