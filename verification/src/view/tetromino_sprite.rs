//! Where the cells of a piece stand in the frame.

use vstd::prelude::*;
use crate::state::{CurrentTetromino, Piece};
use crate::tetromino::{
    display_rotation, shape_of, shape_offsets, shape_view, Shape, Tetromino,
};
use crate::view::cursor_positions::GRID_ORIGIN;
use crate::view::{CELL_WIDTH, SCREEN_LENGTH, SCREEN_WIDTH};

verus! {

/// A piece as the frame shows it: its kind and the places of its four
/// cells, the centre first. A cell that would stand outside the frame has no
/// place.
#[derive(Clone, Copy, Debug, PartialEq, Eq)]
pub struct TetrominoSprite {
    pub tetromino: Tetromino,
    pub cells_screen_position: (Option<usize>, Option<usize>, Option<usize>, Option<usize>),
}

/// The place in the frame that lies `offset` cells from `center`: one
/// screen line for each row, one cell width for each column.
pub open spec fn screen_place(center: int, offset: (int, int)) -> int {
    center + offset.0 * SCREEN_WIDTH + offset.1 * CELL_WIDTH
}

/// The place in the frame of a cell of the playfield.
pub open spec fn grid_place(cell: (int, int)) -> int {
    screen_place(GRID_ORIGIN as int, cell)
}

/// A place as a sprite holds it: the place itself where a whole cell fits
/// into the frame there, else nothing.
pub open spec fn place_marker(place: int) -> Option<usize> {
    if 0 <= place && place + CELL_WIDTH <= SCREEN_LENGTH {
        Some(place as usize)
    } else {
        None
    }
}

/// The places of the four cells of a shape around a centre.
pub open spec fn sprite_places(center: int, offsets: ((int, int), (int, int), (int, int))) -> (
    Option<usize>,
    Option<usize>,
    Option<usize>,
    Option<usize>,
) {
    (
        place_marker(center),
        place_marker(screen_place(center, offsets.0)),
        place_marker(screen_place(center, offsets.1)),
        place_marker(screen_place(center, offsets.2)),
    )
}

/// The place that lies `row_offset` rows and `column_offset` columns from
/// `center`, where a cell fits into the frame there.
pub fn place_from(center: usize, row_offset: i32, column_offset: i32) -> (place: Option<usize>)
    ensures
        place == place_marker(screen_place(center as int, (row_offset as int, column_offset as int))),
{
    let width: i128 = 69;
    let cell: i128 = 2;
    let place: i128 = (center as i128) + (row_offset as i128) * width + (column_offset as i128)
        * cell;
    if 0 <= place && place + 2 <= 1516 {
        Some(place as usize)
    } else {
        None
    }
}

impl TetrominoSprite {
    /// The sprite of a kind in the shape under which the hold section and
    /// the next section show it, around a centre given as a place.
    pub fn display_sprite(tetromino: Tetromino, center_screen_position: usize) -> (sprite:
        TetrominoSprite)
        ensures
            sprite.tetromino == tetromino,
            sprite.cells_screen_position == sprite_places(
                center_screen_position as int,
                shape_offsets(tetromino, display_rotation(tetromino)),
            ),
    {
        TetrominoSprite {
            tetromino,
            cells_screen_position: Self::get_screen_cells_from_shape(
                center_screen_position,
                Self::get_display_shape(tetromino),
            ),
        }
    }

    /// The sprite of a piece on the playfield, from its kind, the row and
    /// the column of its centre and its rotation.
    pub fn current_tetromino(
        tetromino: Tetromino,
        grid_position: (usize, usize),
        rotation: usize,
    ) -> (sprite: TetrominoSprite)
        requires
            rotation < 4,
            grid_position.0 * SCREEN_WIDTH + grid_position.1 * CELL_WIDTH + GRID_ORIGIN
                <= usize::MAX,
        ensures
            sprite.tetromino == tetromino,
            sprite.cells_screen_position == sprite_places(
                grid_place((grid_position.0 as int, grid_position.1 as int)),
                shape_offsets(tetromino, rotation as int),
            ),
    {
        TetrominoSprite {
            tetromino,
            cells_screen_position: Self::get_grid_cells_from_shape(
                grid_position,
                Self::get_shape(tetromino, rotation),
            ),
        }
    }

    /// The sprite of the falling piece.
    pub fn of_current_tetromino(current_tetromino: &CurrentTetromino) -> (sprite: TetrominoSprite)
        ensures
            sprite.tetromino == current_tetromino@.kind,
            sprite.cells_screen_position == piece_places(current_tetromino@),
    {
        let position = current_tetromino.get_position();
        Self::current_tetromino(
            current_tetromino.get_tetromino(),
            (position.i, position.j),
            current_tetromino.get_rotation(),
        )
    }

    /// Shape of a kind under a rotation.
    pub fn get_shape(tetromino: Tetromino, rotation: usize) -> (shape: Shape)
        requires
            rotation < 4,
        ensures
            shape_view(shape) == shape_offsets(tetromino, rotation as int),
    {
        shape_of(tetromino, rotation)
    }

    /// Shape under which the hold section and the next section show a kind.
    pub fn get_display_shape(tetromino: Tetromino) -> (shape: Shape)
        ensures
            shape_view(shape) == shape_offsets(tetromino, display_rotation(tetromino)),
    {
        tetromino.get_display_shape()
    }

    /// The places of the four cells of a shape whose centre is a cell of
    /// the playfield.
    pub fn get_grid_cells_from_shape(grid_center: (usize, usize), shape: Shape) -> (places: (
        Option<usize>,
        Option<usize>,
        Option<usize>,
        Option<usize>,
    ))
        requires
            grid_center.0 * SCREEN_WIDTH + grid_center.1 * CELL_WIDTH + GRID_ORIGIN <= usize::MAX,
        ensures
            places == sprite_places(
                grid_place((grid_center.0 as int, grid_center.1 as int)),
                shape_view(shape),
            ),
    {
        let center: usize = GRID_ORIGIN + grid_center.0 * SCREEN_WIDTH + grid_center.1 * CELL_WIDTH;
        Self::get_screen_cells_from_shape(center, shape)
    }

    /// The places of the four cells of a shape whose centre is a place.
    pub fn get_screen_cells_from_shape(screen_center: usize, shape: Shape) -> (places: (
        Option<usize>,
        Option<usize>,
        Option<usize>,
        Option<usize>,
    ))
        ensures
            places == sprite_places(screen_center as int, shape_view(shape)),
    {
        (
            place_from(screen_center, 0, 0),
            place_from(screen_center, shape[0].0, shape[0].1),
            place_from(screen_center, shape[1].0, shape[1].1),
            place_from(screen_center, shape[2].0, shape[2].1),
        )
    }
}

/// The places of the four cells of a piece on the playfield.
pub open spec fn piece_places(piece: Piece) -> (
    Option<usize>,
    Option<usize>,
    Option<usize>,
    Option<usize>,
) {
    sprite_places(grid_place((piece.row, piece.col)), piece.offsets())
}

} // verus!
