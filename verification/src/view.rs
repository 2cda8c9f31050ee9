//! The frame that shows a game: a buffer of characters, one screen line
//! after the other, into which the playfield, the falling piece, the hold
//! slot, the queue and the counters are written.

use vstd::prelude::*;

pub mod cursor_positions;
pub mod input;
pub mod tetromino_sprite;
pub mod vram;

verus! {

/// Number of characters of a screen line, the two that end it included.
pub const SCREEN_WIDTH: usize = 69;

/// Number of screen lines.
pub const SCREEN_HEIGHT: usize = 22;

/// Number of characters of the frame; the last line has no line end.
pub const SCREEN_LENGTH: usize = 1516;

/// Number of characters that show one cell.
pub const CELL_WIDTH: usize = 2;

/// Number of characters of a line of the hold section or the next section.
pub const SECTION_WIDTH: usize = 12;

/// Number of lines of the hold section.
pub const HOLD_SECTION_HEIGHT: usize = 4;

/// Number of lines of the next section.
pub const NEXT_SECTION_HEIGHT: usize = 12;

/// The character that ends a line of a template.
pub const LINE_FEED: u8 = 10;

/// The character that follows each line feed in the frame.
pub const CARRIAGE_RETURN: u8 = 13;

/// The character of the frame where nothing is shown.
pub const BLANK_CHAR: u8 = 32;

/// The first character that the frame mark takes.
pub const FIRST_MARK_CHAR: u8 = 65;

/// The last character that the frame mark takes.
pub const LAST_MARK_CHAR: u8 = 90;

/// The frame of a game.
pub struct View {
    vram: [u8; SCREEN_LENGTH],
}

impl View {
    /// The characters of the frame, one screen line after the other.
    pub closed spec fn bytes(&self) -> Seq<u8> {
        vstd::view::View::view(&self.vram)
    }

    /// A frame of blanks.
    pub fn blank() -> (view: View)
        ensures
            view.bytes() == Seq::new(SCREEN_LENGTH as nat, |k: int| BLANK_CHAR),
    {
        let view = View { vram: [BLANK_CHAR;SCREEN_LENGTH] };
        assert(view.bytes() =~= Seq::new(SCREEN_LENGTH as nat, |k: int| BLANK_CHAR));
        view
    }

    /// The character at a place of the frame.
    pub fn get_char(&self, position: usize) -> (character: u8)
        requires
            position < SCREEN_LENGTH,
        ensures
            character == self.bytes()[position as int],
    {
        self.vram[position]
    }

    /// Writes a character at a place of the frame.
    pub fn set_char(&mut self, position: usize, character: u8)
        requires
            position < SCREEN_LENGTH,
        ensures
            final(self).bytes() == old(self).bytes().update(position as int, character),
    {
        self.vram[position] = character;
    }
}

} // verus!
