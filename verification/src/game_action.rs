use vstd::prelude::*;

verus! {

/// A command of the player.
#[derive(Clone, Copy, Debug, PartialEq, Eq, Structural)]
pub enum GameAction {
    /// Move the falling piece one column to the left.
    Left,
    /// Move the falling piece one column to the right.
    Right,
    /// Move the falling piece one row down, or lock it where it rests.
    Down,
    /// Turn the falling piece by a quarter.
    Rotate,
    /// Swap the falling piece with the hold slot.
    Store,
    /// Suspend or resume the game.
    Pause,
    /// Leave the game.
    Quit,
}

} // verus!
