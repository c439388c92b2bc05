use vstd::prelude::*;

use crate::entity::{move_step, Object};
use crate::grid::Game;

verus! {

/// The key codes the core distinguishes; every other code the input
/// collaborator can report is `Other`.
#[derive(Clone, Copy, Debug, PartialEq, Eq, Structural)]
pub enum KeyCode {
    Up,
    Down,
    Left,
    Right,
    Enter,
    Escape,
    Other,
}

/// One key event from the input collaborator: the key code and whether the
/// alt modifier was held.
#[derive(Clone, Copy, Debug, PartialEq, Eq, Structural)]
pub struct KeyEvent {
    pub code: KeyCode,
    pub alt: bool,
}

/// What the frame loop driver must do after a key event, besides the
/// movement the core has already applied itself.
#[derive(Clone, Copy, Debug, PartialEq, Eq, Structural)]
pub enum KeyAction {
    /// Keep looping; nothing to pass through.
    Nothing,
    /// Pass a fullscreen toggle through to the rendering collaborator.
    ToggleFullscreen,
    /// Leave the frame loop.
    Exit,
}

/// The movement delta a key code stands for, if any.
pub open spec fn key_delta(code: KeyCode) -> Option<(int, int)> {
    match code {
        KeyCode::Up => Some((0int, -1int)),
        KeyCode::Down => Some((0int, 1int)),
        KeyCode::Left => Some((-1int, 0int)),
        KeyCode::Right => Some((1int, 0int)),
        _ => None,
    }
}

/// The pass-through request a key event decides: exit on escape, a
/// fullscreen toggle on alt+enter, nothing otherwise.
pub open spec fn key_action(key: KeyEvent) -> KeyAction {
    match key.code {
        KeyCode::Escape => KeyAction::Exit,
        KeyCode::Enter => if key.alt {
            KeyAction::ToggleFullscreen
        } else {
            KeyAction::Nothing
        },
        _ => KeyAction::Nothing,
    }
}

/// Map one key event to its effect: a directional key moves the player one
/// step, gated by the grid's collision rule; escape asks to exit; alt+enter
/// asks for a fullscreen toggle; everything else is ignored.
pub fn handle_keys(key: KeyEvent, game: &Game, player: &mut Object) -> (action: KeyAction)
    requires
        game.map.wf(),
    ensures
        action == key_action(key),
        *final(player) == (match key_delta(key.code) {
            Some(d) => move_step(*old(player), d.0, d.1, game.map),
            None => *old(player),
        }),
{
    match key.code {
        KeyCode::Up => {
            let _ = player.try_move_by(0, -1, game);
            KeyAction::Nothing
        },
        KeyCode::Down => {
            let _ = player.try_move_by(0, 1, game);
            KeyAction::Nothing
        },
        KeyCode::Left => {
            let _ = player.try_move_by(-1, 0, game);
            KeyAction::Nothing
        },
        KeyCode::Right => {
            let _ = player.try_move_by(1, 0, game);
            KeyAction::Nothing
        },
        KeyCode::Enter => {
            if key.alt {
                KeyAction::ToggleFullscreen
            } else {
                KeyAction::Nothing
            }
        },
        KeyCode::Escape => KeyAction::Exit,
        KeyCode::Other => KeyAction::Nothing,
    }
}

} // verus!
