//! What is written into the frame, and where.

use vstd::prelude::*;
use crate::cell::Cell;
use crate::state::{CurrentTetromino, State, StateView};
use crate::tetromino::{display_rotation, shape_offsets, Tetromino};
use crate::view::cursor_positions::{
    GRID_ORIGIN, HOLD_GRID_CENTER, HOLD_GRID_ORIGIN, LEVEL_COUNTER, LINES_COUNTER,
    NEXT_GRID_CENTER0, NEXT_GRID_CENTER1, NEXT_GRID_CENTER2, NEXT_GRID_ORIGIN, SCORE_COUNTER,
};
use crate::view::tetromino_sprite::{
    grid_place, piece_places, sprite_places, TetrominoSprite,
};
use crate::view::{
    BLANK_CHAR, CARRIAGE_RETURN, CELL_WIDTH, FIRST_MARK_CHAR, HOLD_SECTION_HEIGHT,
    LAST_MARK_CHAR, LINE_FEED, NEXT_SECTION_HEIGHT, SCREEN_LENGTH, SCREEN_WIDTH, SECTION_WIDTH,
};
use crate::{GRID_HEIGHT, GRID_LENGTH, GRID_WIDTH};

verus! {

/// The characters of a template with a carriage return put after each line
/// feed.
pub open spec fn expanded(content: Seq<u8>) -> Seq<u8>
    decreases content.len(),
{
    if content.len() == 0 {
        Seq::empty()
    } else if content.last() == LINE_FEED {
        expanded(content.drop_last()).push(LINE_FEED).push(CARRIAGE_RETURN)
    } else {
        expanded(content.drop_last()).push(content.last())
    }
}

/// The frame that a template gives: the first characters of the expanded
/// template, as many as the frame holds, and blanks where the template
/// ends before the frame does.
pub open spec fn template_frame(content: Seq<u8>) -> Seq<u8> {
    Seq::new(
        SCREEN_LENGTH as nat,
        |k: int|
            if k < expanded(content).len() {
                expanded(content)[k]
            } else {
                BLANK_CHAR
            },
    )
}

/// The frame mark after one more frame: the next capital letter, and `A`
/// after `Z` or after any character that is no capital letter below `Z`.
pub open spec fn next_mark(mark: u8) -> u8 {
    if mark < LAST_MARK_CHAR {
        (mark + 1) as u8
    } else {
        FIRST_MARK_CHAR
    }
}

/// A longer part of a template expands to a text that begins with the
/// expansion of a shorter part.
pub proof fn lemma_expanded_prefix(content: Seq<u8>, n: int, m: int)
    requires
        0 <= n <= m <= content.len(),
    ensures
        expanded(content.take(n)).len() <= expanded(content.take(m)).len(),
        forall|k: int|
            0 <= k < expanded(content.take(n)).len() ==> expanded(content.take(n))[k]
                == #[trigger] expanded(content.take(m))[k],
    decreases m - n,
{
    if n < m {
        lemma_expanded_prefix(content, n, m - 1);
        assert(content.take(m).drop_last() =~= content.take(m - 1));
    }
}

impl crate::view::View {
    /// The frame that a template gives. A carriage return is put after
    /// each line feed of the template.
    pub fn from_template(content: &[u8]) -> (view: Self)
        ensures
            view.bytes() == template_frame(content@),
    {
        let mut view = Self::blank();
        let mut read: usize = 0;
        let mut written: usize = 0;
        proof {
            assert(content@.take(0) =~= Seq::<u8>::empty());
        }
        while read < content.len() && written < SCREEN_LENGTH
            invariant
                read <= content.len(),
                written == expanded(content@.take(read as int)).len() || (written
                    == SCREEN_LENGTH && SCREEN_LENGTH <= expanded(content@.take(read as int)).len()),
                written <= SCREEN_LENGTH,
                view.bytes().len() == SCREEN_LENGTH,
                forall|k: int|
                    0 <= k < written ==> #[trigger] view.bytes()[k] == expanded(
                        content@.take(read as int),
                    )[k],
                forall|k: int|
                    written <= k < SCREEN_LENGTH ==> #[trigger] view.bytes()[k] == BLANK_CHAR,
            decreases content.len() - read,
        {
            let byte = content[read];
            proof {
                assert(content@.take(read + 1).drop_last() =~= content@.take(read as int));
                assert(content@.take(read + 1).last() == byte);
            }
            view.set_char(written, byte);
            written += 1;
            if byte == LINE_FEED && written < SCREEN_LENGTH {
                view.set_char(written, CARRIAGE_RETURN);
                written += 1;
            }
            read += 1;
        }
        proof {
            lemma_expanded_prefix(content@, read as int, content@.len() as int);
            assert(content@.take(content@.len() as int) =~= content@);
            assert(view.bytes() =~= template_frame(content@));
        }
        view
    }

    /// The characters of the frame, to be sent to the terminal.
    pub fn to_vec(&self) -> (characters: Vec<u8>)
        ensures
            characters@ == self.bytes(),
    {
        let mut characters: Vec<u8> = Vec::new();
        let mut k: usize = 0;
        while k < SCREEN_LENGTH
            invariant
                k <= SCREEN_LENGTH,
                characters@.len() == k,
                forall|n: int| 0 <= n < k ==> #[trigger] characters@[n] == self.bytes()[n],
            decreases SCREEN_LENGTH - k,
        {
            characters.push(self.get_char(k));
            k += 1;
        }
        assert(characters@ =~= self.bytes());
        characters
    }

    /// Moves the frame mark, the second character of the frame, one letter
    /// on, so that two frames in a row differ.
    pub fn advance_frame_mark(&mut self)
        ensures
            final(self).bytes() == old(self).bytes().update(1, next_mark(old(self).bytes()[1])),
    {
        let mark = self.get_char(1);
        let next = if mark < LAST_MARK_CHAR {
            mark + 1
        } else {
            FIRST_MARK_CHAR
        };
        self.set_char(1, next);
    }
}

/// The character that shows a full cell.
pub const TETROMINO_CELL_CHAR: u8 = 72;

/// The character that shows an empty cell.
pub const EMPTY_CELL_CHAR: u8 = 32;

/// The character of the digit zero.
pub const ZERO_CHAR: u8 = 48;

/// The character that shows a cell of the playfield.
pub open spec fn cell_char(cell: Cell) -> u8 {
    match cell {
        Cell::Full => TETROMINO_CELL_CHAR,
        Cell::Empty => EMPTY_CELL_CHAR,
    }
}

/// The frame with the two characters of one cell written at a place.
pub open spec fn with_cell(frame: Seq<u8>, place: int, character: u8) -> Seq<u8> {
    frame.update(place, character).update(place + 1, character)
}

/// The frame with the first `n` cells of the playfield written into it, row
/// by row.
pub open spec fn with_grid(frame: Seq<u8>, grid: Seq<Cell>, n: int) -> Seq<u8>
    decreases n,
{
    if n <= 0 {
        frame
    } else {
        with_cell(
            with_grid(frame, grid, n - 1),
            grid_place(((n - 1) / (GRID_WIDTH as int), (n - 1) % (GRID_WIDTH as int))),
            cell_char(grid[n - 1]),
        )
    }
}

/// The frame with a full cell written at a place, if there is one.
pub open spec fn with_place(frame: Seq<u8>, place: Option<usize>) -> Seq<u8> {
    match place {
        Some(position) => with_cell(frame, position as int, TETROMINO_CELL_CHAR),
        None => frame,
    }
}

/// The frame with the four cells of a sprite written into it.
pub open spec fn with_sprite(
    frame: Seq<u8>,
    places: (Option<usize>, Option<usize>, Option<usize>, Option<usize>),
) -> Seq<u8> {
    with_place(with_place(with_place(with_place(frame, places.0), places.1), places.2), places.3)
}

/// The frame with the full cells of one line of a section blanked.
pub open spec fn line_cleared(frame: Seq<u8>, line_origin: int) -> Seq<u8> {
    Seq::new(
        frame.len(),
        |k: int|
            if line_origin <= k < line_origin + SECTION_WIDTH && frame[k] == TETROMINO_CELL_CHAR {
                EMPTY_CELL_CHAR
            } else {
                frame[k]
            },
    )
}

/// The frame with the full cells of the first `height` lines of a section
/// blanked.
pub open spec fn section_cleared(frame: Seq<u8>, origin: int, height: int) -> Seq<u8>
    decreases height,
{
    if height <= 0 {
        frame
    } else {
        line_cleared(
            section_cleared(frame, origin, height - 1),
            origin + (height - 1) * SCREEN_WIDTH,
        )
    }
}

/// The character of a digit.
pub open spec fn digit_char(digit: int) -> u8 {
    (ZERO_CHAR + digit) as u8
}

/// The frame with the last five decimal digits of a number written so that
/// the last digit stands at `position`.
pub open spec fn with_uint(frame: Seq<u8>, n: int, position: int) -> Seq<u8> {
    frame.update(position, digit_char(n % 10)).update(position - 1, digit_char((n / 10) % 10)).update(
        position - 2,
        digit_char((n / 100) % 10),
    ).update(position - 3, digit_char((n / 1000) % 10)).update(
        position - 4,
        digit_char((n / 10000) % 10),
    )
}

/// The frame with the hold section drawn: blanked, then the kind in the
/// hold slot, if there is one, written around the centre of the section.
pub open spec fn with_hold(frame: Seq<u8>, hold: Option<Tetromino>) -> Seq<u8> {
    let cleared = section_cleared(frame, HOLD_GRID_ORIGIN as int, HOLD_SECTION_HEIGHT as int);
    match hold {
        Some(kind) => with_sprite(cleared, display_places(kind, HOLD_GRID_CENTER as int)),
        None => cleared,
    }
}

/// The places of the cells of a kind as the sections show it.
pub open spec fn display_places(kind: Tetromino, center: int) -> (
    Option<usize>,
    Option<usize>,
    Option<usize>,
    Option<usize>,
) {
    sprite_places(center, shape_offsets(kind, display_rotation(kind)))
}

/// The frame with the next section drawn: blanked, then the three kinds of
/// the queue written one under the other.
pub open spec fn with_next(frame: Seq<u8>, queue: Seq<Tetromino>) -> Seq<u8> {
    let cleared = section_cleared(frame, NEXT_GRID_ORIGIN as int, NEXT_SECTION_HEIGHT as int);
    let first = with_sprite(cleared, display_places(queue[0], NEXT_GRID_CENTER0 as int));
    let second = with_sprite(first, display_places(queue[1], NEXT_GRID_CENTER1 as int));
    with_sprite(second, display_places(queue[2], NEXT_GRID_CENTER2 as int))
}

/// The frame that shows a game: the playfield, over it the falling piece,
/// the hold section, the next section, and the score, the level and the
/// lines.
pub open spec fn frame_of(frame: Seq<u8>, state: StateView) -> Seq<u8> {
    let grid = with_grid(frame, state.grid, GRID_LENGTH as int);
    let piece = with_sprite(grid, piece_places(state.piece));
    let hold = with_hold(piece, state.hold);
    let next = with_next(hold, state.queue);
    let score = with_uint(next, state.score, SCORE_COUNTER as int);
    let level = with_uint(score, state.level, LEVEL_COUNTER as int);
    with_uint(level, state.lines, LINES_COUNTER as int)
}

/// Writes a game into the frame.
pub fn load_state_data(state: &State, view: &mut crate::view::View)
    ensures
        final(view).bytes() == frame_of(old(view).bytes(), state@),
{
    load_grid(state, view);
    load_current_tetromino_sprite(view, state.get_current_tetromino_ref());
    load_hold_section(view, state);
    load_next_section(view, state);
    load_uint(view, state.get_score(), SCORE_COUNTER);
    load_uint(view, state.get_level(), LEVEL_COUNTER);
    load_uint(view, state.get_lines(), LINES_COUNTER);
}

/// Writes the playfield into the frame.
pub fn load_grid(state: &State, view: &mut crate::view::View)
    ensures
        final(view).bytes() == with_grid(old(view).bytes(), state@.grid, GRID_LENGTH as int),
{
    let mut index: usize = 0;
    while index < GRID_LENGTH
        invariant
            index <= GRID_LENGTH,
            view.bytes() == with_grid(old(view).bytes(), state@.grid, index as int),
        decreases GRID_LENGTH - index,
    {
        let cell_grid_position = (index / GRID_WIDTH, index % GRID_WIDTH);
        let cell = state.get_grid_cell(cell_grid_position.0, cell_grid_position.1);
        load_tetromino_cell_grid(view, &cell, cell_grid_position);
        index += 1;
    }
}

/// Writes one cell of the playfield into the frame.
pub fn load_tetromino_cell_grid(
    view: &mut crate::view::View,
    cell: &Cell,
    cell_grid_position: (usize, usize),
)
    requires
        cell_grid_position.0 < GRID_HEIGHT,
        cell_grid_position.1 < GRID_WIDTH,
    ensures
        final(view).bytes() == with_cell(
            old(view).bytes(),
            grid_place((cell_grid_position.0 as int, cell_grid_position.1 as int)),
            cell_char(*cell),
        ),
{
    let cell_char = match cell {
        Cell::Full => TETROMINO_CELL_CHAR,
        Cell::Empty => EMPTY_CELL_CHAR,
    };
    let cell_screen_position = GRID_ORIGIN + cell_grid_position.0 * SCREEN_WIDTH
        + cell_grid_position.1 * CELL_WIDTH;

    view.set_char(cell_screen_position, cell_char);
    view.set_char(cell_screen_position + 1, cell_char);
}

/// Writes the falling piece into the frame.
pub fn load_current_tetromino_sprite(
    view: &mut crate::view::View,
    current_tetromino: &CurrentTetromino,
)
    ensures
        final(view).bytes() == with_sprite(old(view).bytes(), piece_places(current_tetromino@)),
{
    let sprite = TetrominoSprite::of_current_tetromino(current_tetromino);

    load_tetromino_sprite(view, sprite);
}

/// Draws the hold section.
pub fn load_hold_section(view: &mut crate::view::View, state: &State)
    ensures
        final(view).bytes() == with_hold(old(view).bytes(), state@.hold),
{
    clear_section(view, HOLD_GRID_ORIGIN, HOLD_SECTION_HEIGHT);

    if let Some(tetromino) = state.get_stored_tetromino() {
        let tetromino_sprite = TetrominoSprite::display_sprite(tetromino, HOLD_GRID_CENTER);
        load_tetromino_sprite(view, tetromino_sprite);
    }
}

/// Draws the next section.
pub fn load_next_section(view: &mut crate::view::View, state: &State)
    ensures
        final(view).bytes() == with_next(old(view).bytes(), state@.queue),
{
    clear_section(view, NEXT_GRID_ORIGIN, NEXT_SECTION_HEIGHT);

    load_next_section_part(view, state, 0, NEXT_GRID_CENTER0);
    load_next_section_part(view, state, 1, NEXT_GRID_CENTER1);
    load_next_section_part(view, state, 2, NEXT_GRID_CENTER2);
}

/// Writes one kind of the queue into the frame, around a centre.
pub fn load_next_section_part(
    view: &mut crate::view::View,
    state: &State,
    queue_index: usize,
    screen_center: usize,
)
    requires
        queue_index < crate::NEXT_TETROMINOS_QUEUE_SIZE,
    ensures
        final(view).bytes() == with_sprite(
            old(view).bytes(),
            display_places(state@.queue[queue_index as int], screen_center as int),
        ),
{
    let tetromino = state.get_in_next_tetromino_queue(queue_index);
    let tetromino_sprite = TetrominoSprite::display_sprite(tetromino, screen_center);
    load_tetromino_sprite(view, tetromino_sprite);
}

/// Writes the cells of a sprite that have a place into the frame.
pub fn load_tetromino_sprite(view: &mut crate::view::View, sprite: TetrominoSprite)
    requires
        place_fits(sprite.cells_screen_position.0),
        place_fits(sprite.cells_screen_position.1),
        place_fits(sprite.cells_screen_position.2),
        place_fits(sprite.cells_screen_position.3),
    ensures
        final(view).bytes() == with_sprite(old(view).bytes(), sprite.cells_screen_position),
{
    if let Some(cell0_screen_position) = sprite.cells_screen_position.0 {
        load_tetromino_cell(view, cell0_screen_position);
    }
    if let Some(cell1_screen_position) = sprite.cells_screen_position.1 {
        load_tetromino_cell(view, cell1_screen_position);
    }
    if let Some(cell2_screen_position) = sprite.cells_screen_position.2 {
        load_tetromino_cell(view, cell2_screen_position);
    }
    if let Some(cell3_screen_position) = sprite.cells_screen_position.3 {
        load_tetromino_cell(view, cell3_screen_position);
    }
}

/// A place, if there is one, leaves room for a cell in the frame.
pub open spec fn place_fits(place: Option<usize>) -> bool {
    match place {
        Some(position) => position + CELL_WIDTH <= SCREEN_LENGTH,
        None => true,
    }
}

/// Writes a full cell at a place of the frame.
pub fn load_tetromino_cell(view: &mut crate::view::View, screen_position: usize)
    requires
        screen_position + CELL_WIDTH <= SCREEN_LENGTH,
    ensures
        final(view).bytes() == with_cell(
            old(view).bytes(),
            screen_position as int,
            TETROMINO_CELL_CHAR,
        ),
{
    view.set_char(screen_position, TETROMINO_CELL_CHAR);
    view.set_char(screen_position + 1, TETROMINO_CELL_CHAR);
}

/// Blanks the full cells of the first `height` lines of a section.
pub fn clear_section(view: &mut crate::view::View, origin: usize, height: usize)
    requires
        height >= 1 ==> origin + (height - 1) * SCREEN_WIDTH + SECTION_WIDTH <= SCREEN_LENGTH,
    ensures
        final(view).bytes() == section_cleared(old(view).bytes(), origin as int, height as int),
{
    let mut k: usize = 0;
    while k < height
        invariant
            k <= height,
            height >= 1 ==> origin + (height - 1) * SCREEN_WIDTH + SECTION_WIDTH <= SCREEN_LENGTH,
            view.bytes() == section_cleared(old(view).bytes(), origin as int, k as int),
        decreases height - k,
    {
        assert(k * SCREEN_WIDTH <= (height - 1) * SCREEN_WIDTH) by (nonlinear_arith)
            requires
                k <= height - 1,
        ;
        let line_origin = origin + k * SCREEN_WIDTH;
        clear_section_line(view, line_origin);
        k += 1;
    }
}

/// Blanks the full cells of one line of a section.
pub fn clear_section_line(view: &mut crate::view::View, line_origin: usize)
    requires
        line_origin + SECTION_WIDTH <= SCREEN_LENGTH,
    ensures
        final(view).bytes() == line_cleared(old(view).bytes(), line_origin as int),
{
    let mut index: usize = line_origin;
    while index < line_origin + SECTION_WIDTH
        invariant
            line_origin <= index <= line_origin + SECTION_WIDTH,
            line_origin + SECTION_WIDTH <= SCREEN_LENGTH,
            view.bytes().len() == old(view).bytes().len(),
            forall|k: int|
                0 <= k < view.bytes().len() ==> #[trigger] view.bytes()[k] == if line_origin <= k
                    < index && old(view).bytes()[k] == TETROMINO_CELL_CHAR {
                    EMPTY_CELL_CHAR
                } else {
                    old(view).bytes()[k]
                },
        decreases line_origin + SECTION_WIDTH - index,
    {
        if view.get_char(index) == TETROMINO_CELL_CHAR {
            view.set_char(index, EMPTY_CELL_CHAR);
        }
        index += 1;
    }
    assert(view.bytes() =~= line_cleared(old(view).bytes(), line_origin as int));
}

/// Writes the last five decimal digits of a number into the frame, the last
/// digit at `position`.
pub fn load_uint(view: &mut crate::view::View, n: u32, position: usize)
    requires
        4 <= position < SCREEN_LENGTH,
    ensures
        final(view).bytes() == with_uint(old(view).bytes(), n as int, position as int),
{
    let digit0 = digit_to_utf8((n % 10) as u8);
    let digit1 = digit_to_utf8(((n / 10) % 10) as u8);
    let digit2 = digit_to_utf8(((n / 100) % 10) as u8);
    let digit3 = digit_to_utf8(((n / 1000) % 10) as u8);
    let digit4 = digit_to_utf8(((n / 10000) % 10) as u8);

    view.set_char(position, digit0);
    view.set_char(position - 1, digit1);
    view.set_char(position - 2, digit2);
    view.set_char(position - 3, digit3);
    view.set_char(position - 4, digit4);
}

/// The character of a digit.
pub fn digit_to_utf8(digit: u8) -> (character: u8)
    requires
        ZERO_CHAR + digit <= u8::MAX,
    ensures
        character == digit_char(digit as int),
{
    let utf8_zero = ZERO_CHAR;
    utf8_zero + digit
}

} // verus!
