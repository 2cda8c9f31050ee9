use vstd::prelude::*;
use crate::state::{CurrentTetromino, GridCoords, Piece};
use crate::{GRID_HEIGHT, GRID_WIDTH};

verus! {

/// The seven kinds of tetromino.
#[derive(Clone, Copy, Debug, PartialEq, Eq, Structural)]
pub enum Tetromino {
    I,
    O,
    T,
    J,
    L,
    S,
    Z,
}

/// Number of kinds of tetromino.
pub const NB_TETROMINOS: u32 = 7;

/// The three cells of a shape besides its centre, each as a row offset and a
/// column offset from the centre.
pub type Shape = [(i32, i32); 3];

/// Offsets of the shape that a kind takes under a rotation, as mathematical
/// integers. `I`, `S` and `Z` have two shapes, `O` has one, the others four.
pub open spec fn shape_offsets(kind: Tetromino, rotation: int) -> (
    (int, int),
    (int, int),
    (int, int),
) {
    match kind {
        Tetromino::I => if rotation % 2 == 0 {
            ((0, -1), (0, 1), (0, 2))
        } else {
            ((-1, 0), (1, 0), (2, 0))
        },
        Tetromino::O => ((-1, 0), (-1, 1), (0, 1)),
        Tetromino::T => if rotation == 0 {
            ((0, -1), (0, 1), (1, 0))
        } else if rotation == 1 {
            ((-1, 0), (0, 1), (1, 0))
        } else if rotation == 2 {
            ((-1, 0), (0, -1), (0, 1))
        } else {
            ((-1, 0), (0, -1), (1, 0))
        },
        Tetromino::J => if rotation == 0 {
            ((-1, 0), (1, -1), (1, 0))
        } else if rotation == 1 {
            ((0, -1), (0, 1), (1, 1))
        } else if rotation == 2 {
            ((-1, 0), (-1, 1), (1, 0))
        } else {
            ((-1, -1), (0, -1), (0, 1))
        },
        Tetromino::L => if rotation == 0 {
            ((-1, -1), (-1, 0), (1, 0))
        } else if rotation == 1 {
            ((-1, 1), (0, -1), (0, 1))
        } else if rotation == 2 {
            ((-1, 0), (1, 0), (1, 1))
        } else {
            ((0, -1), (0, 1), (1, 0))
        },
        Tetromino::S => if rotation % 2 == 0 {
            ((-1, 0), (-1, 1), (0, -1))
        } else {
            ((-1, 0), (1, 0), (1, 1))
        },
        Tetromino::Z => if rotation % 2 == 0 {
            ((-1, -1), (-1, 0), (0, 1))
        } else {
            ((-1, 1), (0, 1), (1, 0))
        },
    }
}

/// The offsets that an executable shape holds, as mathematical integers.
pub open spec fn shape_view(shape: Shape) -> ((int, int), (int, int), (int, int)) {
    (
        (shape[0].0 as int, shape[0].1 as int),
        (shape[1].0 as int, shape[1].1 as int),
        (shape[2].0 as int, shape[2].1 as int),
    )
}

/// Rotation under which a kind is drawn in the hold slot and in the queue.
pub open spec fn display_rotation(kind: Tetromino) -> int {
    match kind {
        Tetromino::T => 2,
        Tetromino::J => 3,
        Tetromino::L => 1,
        _ => 0,
    }
}

/// The kind that a sampled number selects.
pub open spec fn kind_of_index(index: int) -> Tetromino {
    let r = index % 7;
    if r == 0 {
        Tetromino::I
    } else if r == 1 {
        Tetromino::O
    } else if r == 2 {
        Tetromino::T
    } else if r == 3 {
        Tetromino::J
    } else if r == 4 {
        Tetromino::L
    } else if r == 5 {
        Tetromino::S
    } else {
        Tetromino::Z
    }
}

/// Shape of `kind` under `rotation`.
pub fn shape_of(kind: Tetromino, rotation: usize) -> (shape: Shape)
    requires
        rotation < 4,
    ensures
        shape_view(shape) == shape_offsets(kind, rotation as int),
{
    let shape: Shape = match kind {
        Tetromino::I => if rotation % 2 == 0 {
            [(0, -1), (0, 1), (0, 2)]
        } else {
            [(-1, 0), (1, 0), (2, 0)]
        },
        Tetromino::O => [(-1, 0), (-1, 1), (0, 1)],
        Tetromino::T => if rotation == 0 {
            [(0, -1), (0, 1), (1, 0)]
        } else if rotation == 1 {
            [(-1, 0), (0, 1), (1, 0)]
        } else if rotation == 2 {
            [(-1, 0), (0, -1), (0, 1)]
        } else {
            [(-1, 0), (0, -1), (1, 0)]
        },
        Tetromino::J => if rotation == 0 {
            [(-1, 0), (1, -1), (1, 0)]
        } else if rotation == 1 {
            [(0, -1), (0, 1), (1, 1)]
        } else if rotation == 2 {
            [(-1, 0), (-1, 1), (1, 0)]
        } else {
            [(-1, -1), (0, -1), (0, 1)]
        },
        Tetromino::L => if rotation == 0 {
            [(-1, -1), (-1, 0), (1, 0)]
        } else if rotation == 1 {
            [(-1, 1), (0, -1), (0, 1)]
        } else if rotation == 2 {
            [(-1, 0), (1, 0), (1, 1)]
        } else {
            [(0, -1), (0, 1), (1, 0)]
        },
        Tetromino::S => if rotation % 2 == 0 {
            [(-1, 0), (-1, 1), (0, -1)]
        } else {
            [(-1, 0), (1, 0), (1, 1)]
        },
        Tetromino::Z => if rotation % 2 == 0 {
            [(-1, -1), (-1, 0), (0, 1)]
        } else {
            [(-1, 1), (0, 1), (1, 0)]
        },
    };
    shape
}

impl Tetromino {
    /// Shape under which the kind is drawn in the hold slot and in the queue.
    pub fn get_display_shape(&self) -> (shape: Shape)
        ensures
            shape_view(shape) == shape_offsets(*self, display_rotation(*self)),
    {
        match self {
            Tetromino::T => shape_of(Tetromino::T, 2),
            Tetromino::J => shape_of(Tetromino::J, 3),
            Tetromino::L => shape_of(Tetromino::L, 1),
            Tetromino::I => shape_of(Tetromino::I, 0),
            Tetromino::O => shape_of(Tetromino::O, 0),
            Tetromino::S => shape_of(Tetromino::S, 0),
            Tetromino::Z => shape_of(Tetromino::Z, 0),
        }
    }

    /// Kind selected by a sampled number: the seven kinds in the order
    /// `I, O, T, J, L, S, Z`, taken round and round.
    pub fn from_index(index: u32) -> (kind: Tetromino)
        ensures
            kind == kind_of_index(index as int),
    {
        let r: u32 = index % NB_TETROMINOS;
        if r == 0 {
            Tetromino::I
        } else if r == 1 {
            Tetromino::O
        } else if r == 2 {
            Tetromino::T
        } else if r == 3 {
            Tetromino::J
        } else if r == 4 {
            Tetromino::L
        } else if r == 5 {
            Tetromino::S
        } else {
            Tetromino::Z
        }
    }
}

/// The cell lies on the playfield.
pub open spec fn on_grid(cell: (int, int)) -> bool {
    0 <= cell.0 < GRID_HEIGHT && 0 <= cell.1 < GRID_WIDTH
}

/// Place of a cell in the playfield stored row by row.
pub open spec fn grid_index(cell: (int, int)) -> int {
    cell.0 * GRID_WIDTH + cell.1
}

/// The cell one step from `cell` in direction `direction`.
pub open spec fn step(cell: (int, int), direction: (int, int)) -> (int, int) {
    (cell.0 + direction.0, cell.1 + direction.1)
}

/// Four cells in signed arithmetic, as pairs of mathematical integers.
pub open spec fn cells_view(cells: [(i32, i32); 4]) -> (
    (int, int),
    (int, int),
    (int, int),
    (int, int),
) {
    (
        (cells[0].0 as int, cells[0].1 as int),
        (cells[1].0 as int, cells[1].1 as int),
        (cells[2].0 as int, cells[2].1 as int),
        (cells[3].0 as int, cells[3].1 as int),
    )
}

impl Piece {
    /// The three offsets of the piece's shape.
    pub open spec fn offsets(self) -> ((int, int), (int, int), (int, int)) {
        shape_offsets(self.kind, self.rotation)
    }

    /// The `k`-th cell of the piece: the centre first, then the centre moved
    /// by each offset of the shape. A cell may lie off the playfield.
    pub open spec fn cell(self, k: int) -> (int, int) {
        if k == 0 {
            (self.row, self.col)
        } else if k == 1 {
            step((self.row, self.col), self.offsets().0)
        } else if k == 2 {
            step((self.row, self.col), self.offsets().1)
        } else {
            step((self.row, self.col), self.offsets().2)
        }
    }

    /// The four cells of the piece.
    pub open spec fn cells(self) -> ((int, int), (int, int), (int, int), (int, int)) {
        (self.cell(0), self.cell(1), self.cell(2), self.cell(3))
    }

    /// `cell` is one of the four cells of the piece.
    pub open spec fn covers(self, cell: (int, int)) -> bool {
        self.cell(0) == cell || self.cell(1) == cell || self.cell(2) == cell || self.cell(3)
            == cell
    }

    /// All four cells lie on the playfield.
    pub open spec fn in_grid(self) -> bool {
        on_grid(self.cell(0)) && on_grid(self.cell(1)) && on_grid(self.cell(2)) && on_grid(
            self.cell(3),
        )
    }

    /// The piece moved by one step in `direction`.
    pub open spec fn shifted(self, direction: (int, int)) -> Piece {
        Piece { row: self.row + direction.0, col: self.col + direction.1, ..self }
    }
}

/// An offset reaches at most one step up or left and two steps down or
/// right.
pub open spec fn offset_bounded(offset: (int, int)) -> bool {
    -1 <= offset.0 <= 2 && -1 <= offset.1 <= 2
}

/// Every offset of every shape is at most two cells away from the centre.
pub proof fn lemma_offsets_bounded(kind: Tetromino, rotation: int)
    ensures
        offset_bounded(shape_offsets(kind, rotation).0),
        offset_bounded(shape_offsets(kind, rotation).1),
        offset_bounded(shape_offsets(kind, rotation).2),
{
}

impl Piece {
    /// The `k`-th cell lies at most one step above or left of the centre,
    /// and at most two steps below or right of it.
    pub open spec fn cell_near_centre(self, k: int) -> bool {
        &&& self.row - 1 <= self.cell(k).0 <= self.row + 2
        &&& self.col - 1 <= self.cell(k).1 <= self.col + 2
    }

    /// Every cell of a piece lies near its centre.
    pub proof fn lemma_cells_near_centre(self)
        ensures
            self.cell_near_centre(0),
            self.cell_near_centre(1),
            self.cell_near_centre(2),
            self.cell_near_centre(3),
    {
        lemma_offsets_bounded(self.kind, self.rotation);
    }
}

impl CurrentTetromino {
    /// Shape of the piece under its rotation.
    pub fn get_shape(&self) -> (shape: Shape)
        ensures
            shape_view(shape) == self@.offsets(),
    {
        shape_of(self.get_tetromino(), self.get_rotation())
    }

    /// The four cells of the piece in signed arithmetic, the centre first.
    /// Cells off the playfield keep their true row and column.
    pub fn get_signed_cells_coords(&self) -> (cells: [(i32, i32); 4])
        ensures
            cells_view(cells) == self@.cells(),
            self@.valid(),
    {
        let shape = self.get_shape();
        let center = self.get_position();
        let center_i: i32 = center.i as i32;
        let center_j: i32 = center.j as i32;
        proof {
            lemma_offsets_bounded(self@.kind, self@.rotation);
        }
        [
            (center_i, center_j),
            (center_i + shape[0].0, center_j + shape[0].1),
            (center_i + shape[1].0, center_j + shape[1].1),
            (center_i + shape[2].0, center_j + shape[2].1),
        ]
    }

    /// The four cells of a piece that lies on the playfield, the centre
    /// first.
    pub fn get_cells_coords(&self) -> (cells: (GridCoords, GridCoords, GridCoords, GridCoords))
        requires
            self@.in_grid(),
        ensures
            cells.0.as_cell() == self@.cell(0),
            cells.1.as_cell() == self@.cell(1),
            cells.2.as_cell() == self@.cell(2),
            cells.3.as_cell() == self@.cell(3),
            cells.0.in_grid() && cells.1.in_grid() && cells.2.in_grid() && cells.3.in_grid(),
    {
        let signed = self.get_signed_cells_coords();
        (
            GridCoords { i: signed[0].0 as usize, j: signed[0].1 as usize },
            GridCoords { i: signed[1].0 as usize, j: signed[1].1 as usize },
            GridCoords { i: signed[2].0 as usize, j: signed[2].1 as usize },
            GridCoords { i: signed[3].0 as usize, j: signed[3].1 as usize },
        )
    }

    /// Tells whether a cell in signed arithmetic is one of the piece's four.
    pub fn is_signed_cell_part_of_me(&self, cell: (i32, i32)) -> (part: bool)
        ensures
            part == self@.covers((cell.0 as int, cell.1 as int)),
    {
        let signed = self.get_signed_cells_coords();
        (signed[0].0 == cell.0 && signed[0].1 == cell.1) || (signed[1].0 == cell.0 && signed[1].1
            == cell.1) || (signed[2].0 == cell.0 && signed[2].1 == cell.1) || (signed[3].0
            == cell.0 && signed[3].1 == cell.1)
    }

    /// Tells whether a cell of the playfield is one of the piece's four.
    pub fn is_cell_part_of_me(&self, cell_coords: &GridCoords) -> (part: bool)
        ensures
            part == self@.covers(cell_coords.as_cell()),
    {
        proof {
            lemma_offsets_bounded(self@.kind, self@.rotation);
        }
        let center = self.get_position();
        if cell_coords.i > center.i + 2 || cell_coords.j > center.j + 2 {
            false
        } else {
            self.is_signed_cell_part_of_me((cell_coords.i as i32, cell_coords.j as i32))
        }
    }
}

} // verus!
