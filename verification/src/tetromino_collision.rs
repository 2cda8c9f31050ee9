use std::cmp::Ordering;
use vstd::prelude::*;
use crate::state::{CurrentTetromino, Piece};
use crate::tetromino::{grid_index, on_grid, step};
use crate::{GRID_HEIGHT, GRID_HEIGHT_I32, GRID_WIDTH, GRID_WIDTH_I32};

verus! {

/// One column to the left.
pub open spec fn dir_left() -> (int, int) {
    (0, -1)
}

/// One column to the right.
pub open spec fn dir_right() -> (int, int) {
    (0, 1)
}

/// One row down.
pub open spec fn dir_down() -> (int, int) {
    (1, 0)
}

/// What a candidate cell stands for in a list of neighbours: nothing where
/// the cell lies off the playfield, else its place in the playfield.
pub open spec fn neighbour_marker(cell: (int, int)) -> Option<usize> {
    if on_grid(cell) {
        Some(grid_index(cell) as usize)
    } else {
        None
    }
}

impl Piece {
    /// Some cell of the piece lies left of the playfield.
    pub open spec fn clips_left(self) -> bool {
        self.cell(0).1 < 0 || self.cell(1).1 < 0 || self.cell(2).1 < 0 || self.cell(3).1 < 0
    }

    /// Some cell of the piece lies right of the playfield.
    pub open spec fn clips_right(self) -> bool {
        self.cell(0).1 >= GRID_WIDTH || self.cell(1).1 >= GRID_WIDTH || self.cell(2).1
            >= GRID_WIDTH || self.cell(3).1 >= GRID_WIDTH
    }

    /// Some cell of the piece lies below the playfield.
    pub open spec fn clips_bottom(self) -> bool {
        self.cell(0).0 >= GRID_HEIGHT || self.cell(1).0 >= GRID_HEIGHT || self.cell(2).0
            >= GRID_HEIGHT || self.cell(3).0 >= GRID_HEIGHT
    }

    /// The cell that the `k`-th cell of the piece would move to.
    pub open spec fn candidate(self, direction: (int, int), k: int) -> (int, int) {
        step(self.cell(k), direction)
    }

    /// What the `k`-th cell adds to the neighbours in `direction`.
    pub open spec fn neighbour_entry(self, direction: (int, int), k: int) -> Seq<Option<usize>> {
        self.candidate_entry(self.candidate(direction, k))
    }

    /// What a candidate cell adds to a list of neighbours: nothing where the
    /// piece itself covers the cell, else the cell's marker.
    pub open spec fn candidate_entry(self, cell: (int, int)) -> Seq<Option<usize>> {
        if self.covers(cell) {
            seq![]
        } else {
            seq![neighbour_marker(cell)]
        }
    }

    /// The neighbours of the piece in `direction`: the candidates of its four
    /// cells, in the order of the cells, without those that the piece itself
    /// covers.
    pub open spec fn neighbours(self, direction: (int, int)) -> Seq<Option<usize>> {
        self.neighbour_entry(direction, 0) + self.neighbour_entry(direction, 1)
            + self.neighbour_entry(direction, 2) + self.neighbour_entry(direction, 3)
    }
}

impl CurrentTetromino {
    /// Tells on which side the piece sticks out of the playfield:
    /// `Less` where a cell lies left of it, else `Greater` where a cell lies
    /// right of it, else `Equal`.
    pub fn is_tetromino_clipping_horizontaly(&self) -> (side: Ordering)
        ensures
            self@.clips_left() ==> side == Ordering::Less,
            !self@.clips_left() && self@.clips_right() ==> side == Ordering::Greater,
            !self@.clips_left() && !self@.clips_right() ==> side == Ordering::Equal,
    {
        let cells = self.get_signed_cells_coords();
        if cells[0].1 < 0 || cells[1].1 < 0 || cells[2].1 < 0 || cells[3].1 < 0 {
            return Ordering::Less;
        }
        if cells[0].1 >= GRID_WIDTH_I32 || cells[1].1 >= GRID_WIDTH_I32 || cells[2].1
            >= GRID_WIDTH_I32 || cells[3].1 >= GRID_WIDTH_I32 {
            return Ordering::Greater;
        }
        Ordering::Equal
    }

    /// Tells whether a cell of the piece lies below the playfield.
    pub fn is_tetromino_clipping_vertically(&self) -> (clipping: bool)
        ensures
            clipping == self@.clips_bottom(),
    {
        let cells = self.get_signed_cells_coords();
        cells[0].0 >= GRID_HEIGHT_I32 || cells[1].0 >= GRID_HEIGHT_I32 || cells[2].0
            >= GRID_HEIGHT_I32 || cells[3].0 >= GRID_HEIGHT_I32
    }

    /// Tells whether all four cells of the piece lie on the playfield.
    pub fn is_inside_grid(&self) -> (inside: bool)
        ensures
            inside == self@.in_grid(),
    {
        let cells = self.get_signed_cells_coords();
        cell_is_on_grid(cells[0]) && cell_is_on_grid(cells[1]) && cell_is_on_grid(cells[2])
            && cell_is_on_grid(cells[3])
    }

    /// Neighbours of the piece one column to the left.
    pub fn get_left_collisions_cell_indexes(&self) -> (collisions: Vec<Option<usize>>)
        ensures
            collisions@ == self@.neighbours(dir_left()),
    {
        self.get_collisions_cell_indexes((0, -1))
    }

    /// Neighbours of the piece one column to the right.
    pub fn get_right_collisions_cell_indexes(&self) -> (collisions: Vec<Option<usize>>)
        ensures
            collisions@ == self@.neighbours(dir_right()),
    {
        self.get_collisions_cell_indexes((0, 1))
    }

    /// Neighbours of the piece one row down.
    pub fn get_down_collisions_cell_indexes(&self) -> (collisions: Vec<Option<usize>>)
        ensures
            collisions@ == self@.neighbours(dir_down()),
    {
        self.get_collisions_cell_indexes((1, 0))
    }

    /// Neighbours of the piece one step away in `direction`.
    pub fn get_collisions_cell_indexes(&self, direction: (i32, i32)) -> (collisions: Vec<
        Option<usize>,
    >)
        requires
            -1 <= direction.0 <= 1,
            -1 <= direction.1 <= 1,
        ensures
            collisions@ == self@.neighbours((direction.0 as int, direction.1 as int)),
    {
        let cells = self.get_signed_cells_coords();
        let mut collisions: Vec<Option<usize>> = Vec::new();
        let ghost d = (direction.0 as int, direction.1 as int);
        proof {
            self@.lemma_cells_near_centre();
        }

        let possible_neighboor0 = (cells[0].0 + direction.0, cells[0].1 + direction.1);
        self.add_to_collisions_if_valid(&mut collisions, possible_neighboor0);
        assert(collisions@ =~= self@.neighbour_entry(d, 0));

        let possible_neighboor1 = (cells[1].0 + direction.0, cells[1].1 + direction.1);
        self.add_to_collisions_if_valid(&mut collisions, possible_neighboor1);

        let possible_neighboor2 = (cells[2].0 + direction.0, cells[2].1 + direction.1);
        self.add_to_collisions_if_valid(&mut collisions, possible_neighboor2);

        let possible_neighboor3 = (cells[3].0 + direction.0, cells[3].1 + direction.1);
        self.add_to_collisions_if_valid(&mut collisions, possible_neighboor3);

        collisions
    }

    /// Adds a candidate cell to a list of neighbours, unless the piece itself
    /// covers it.
    pub fn add_to_collisions_if_valid(
        &self,
        collisions: &mut Vec<Option<usize>>,
        possible_neighboor: (i32, i32),
    )
        ensures
            final(collisions)@ == old(collisions)@ + self@.candidate_entry(
                (possible_neighboor.0 as int, possible_neighboor.1 as int),
            ),
    {
        if self.is_signed_cell_part_of_me(possible_neighboor) {
            return ;
        }
        if cell_is_on_grid(possible_neighboor) {
            let index: usize = (possible_neighboor.0 * GRID_WIDTH_I32 + possible_neighboor.1) as usize;
            collisions.push(Some(index));
        } else {
            collisions.push(None);
        }
    }
}

/// Tells whether a cell in signed arithmetic lies on the playfield.
pub fn cell_is_on_grid(cell: (i32, i32)) -> (on: bool)
    ensures
        on == on_grid((cell.0 as int, cell.1 as int)),
{
    0 <= cell.0 && cell.0 < GRID_HEIGHT_I32 && 0 <= cell.1 && cell.1 < GRID_WIDTH_I32
}

} // verus!
