//! The keys that command the game.

use vstd::prelude::*;
use crate::game_action::GameAction;

verus! {

/// A key of the keyboard, as far as the game tells keys apart.
#[derive(Clone, Copy, Debug, PartialEq, Eq)]
pub enum Key {
    /// The arrow to the left.
    Left,
    /// The arrow to the right.
    Right,
    /// The arrow down.
    Down,
    /// A key that gives a character.
    Char(char),
    /// Any other key.
    Other,
}

/// The command bound to a key: the arrows move the piece, `r` rotates it,
/// `s` swaps it with the hold slot, `p` pauses and `q` quits.
pub open spec fn key_binding(key: Key) -> Option<GameAction> {
    match key {
        Key::Left => Some(GameAction::Left),
        Key::Right => Some(GameAction::Right),
        Key::Down => Some(GameAction::Down),
        Key::Char(character) => if character == 'r' {
            Some(GameAction::Rotate)
        } else if character == 's' {
            Some(GameAction::Store)
        } else if character == 'p' {
            Some(GameAction::Pause)
        } else if character == 'q' {
            Some(GameAction::Quit)
        } else {
            None
        },
        Key::Other => None,
    }
}

/// The command that a key event gives: the command bound to the key where
/// the key was pressed, none where it was released or is held down.
pub fn action_for_key(key: Key, pressed: bool) -> (action: Option<GameAction>)
    ensures
        action == if pressed {
            key_binding(key)
        } else {
            None
        },
{
    if !pressed {
        return None;
    }
    match key {
        Key::Left => Some(GameAction::Left),
        Key::Right => Some(GameAction::Right),
        Key::Down => Some(GameAction::Down),
        Key::Char(character) => if character == 'r' {
            Some(GameAction::Rotate)
        } else if character == 's' {
            Some(GameAction::Store)
        } else if character == 'p' {
            Some(GameAction::Pause)
        } else if character == 'q' {
            Some(GameAction::Quit)
        } else {
            None
        },
        Key::Other => None,
    }
}

} // verus!
