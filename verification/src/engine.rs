use std::cmp::Ordering;
use vstd::prelude::*;
use crate::cell::Cell;
use crate::state::{
    full_rows, no_full_row, row_cleared, row_full, rows_shifted, spawned, State, StateView,
};
use crate::game_action::GameAction;
use crate::tetromino::{grid_index, on_grid, Tetromino};
use crate::tetromino_collision::{dir_down, dir_left, dir_right, neighbour_marker};
use crate::{GRID_HEIGHT, GRID_LENGTH, GRID_WIDTH};

verus! {

/// The cell lies on the playfield and is empty.
pub open spec fn cell_free(grid: Seq<Cell>, cell: (int, int)) -> bool {
    on_grid(cell) && grid[grid_index(cell)] == Cell::Empty
}

/// Some neighbour of the list lies off the playfield.
pub open spec fn absent_in(neighbours: Seq<Option<usize>>) -> bool {
    exists|n: int| 0 <= n < neighbours.len() && #[trigger] neighbours[n] is None
}

/// Some neighbour of the list is a full cell of the playfield.
pub open spec fn full_in(grid: Seq<Cell>, neighbours: Seq<Option<usize>>) -> bool {
    exists|n: int|
        0 <= n < neighbours.len() && (#[trigger] neighbours[n]) is Some && grid[neighbours[n].unwrap() as int]
            == Cell::Full
}

/// Every neighbour of the list that is a cell names a place of the
/// playfield.
pub open spec fn neighbours_in_range(neighbours: Seq<Option<usize>>) -> bool {
    forall|n: int|
        0 <= n < neighbours.len() && (#[trigger] neighbours[n]) is Some ==> neighbours[n].unwrap()
            < GRID_LENGTH
}

impl StateView {
    /// The `k`-th cell of the piece may move one step in `direction`: the
    /// cell it would move to is a cell of the piece itself, or it lies on the
    /// playfield and is empty.
    pub open spec fn cell_can_move(self, direction: (int, int), k: int) -> bool {
        self.piece.covers(self.piece.candidate(direction, k)) || cell_free(
            self.grid,
            self.piece.candidate(direction, k),
        )
    }

    /// The piece may move one step in `direction`.
    pub open spec fn can_move(self, direction: (int, int)) -> bool {
        self.cell_can_move(direction, 0) && self.cell_can_move(direction, 1) && self.cell_can_move(
            direction,
            2,
        ) && self.cell_can_move(direction, 3)
    }

    /// All four cells of the piece lie over empty cells of the playfield.
    pub open spec fn piece_is_free(self) -> bool {
        cell_free(self.grid, self.piece.cell(0)) && cell_free(self.grid, self.piece.cell(1))
            && cell_free(self.grid, self.piece.cell(2)) && cell_free(self.grid, self.piece.cell(3))
    }

    /// The game after a move to the side: the piece one step further in
    /// `direction` where it may move, else the game unchanged.
    pub open spec fn moved(self, direction: (int, int)) -> StateView {
        if self.can_move(direction) {
            StateView { piece: self.piece.shifted(direction), ..self }
        } else {
            self
        }
    }
}

/// What one cell adds to the neighbours decides whether that cell may move.
pub proof fn lemma_entry_decides(state: StateView, direction: (int, int), k: int)
    requires
        state.grid.len() == GRID_LENGTH,
    ensures
        state.cell_can_move(direction, k) <==> !absent_in(
            state.piece.neighbour_entry(direction, k),
        ) && !full_in(state.grid, state.piece.neighbour_entry(direction, k)),
        neighbours_in_range(state.piece.neighbour_entry(direction, k)),
{
    let entry = state.piece.neighbour_entry(direction, k);
    let cell = state.piece.candidate(direction, k);
    if state.piece.covers(cell) {
        assert(entry.len() == 0);
    } else {
        assert(entry.len() == 1);
        assert(entry[0] == neighbour_marker(cell));
        if on_grid(cell) {
            assert(0 <= grid_index(cell) < GRID_LENGTH);
            assert(entry[0] is Some);
            assert(entry[0].unwrap() == grid_index(cell));
            if state.grid[grid_index(cell)] == Cell::Full {
                assert(full_in(state.grid, entry));
            }
        } else {
            assert(entry[0] is None);
            assert(absent_in(entry));
        }
    }
}

/// A neighbour off the playfield, or a full one, is in two lists put
/// together exactly where it is in one of them.
pub proof fn lemma_lists_joined(
    grid: Seq<Cell>,
    first: Seq<Option<usize>>,
    second: Seq<Option<usize>>,
)
    ensures
        absent_in(first + second) <==> absent_in(first) || absent_in(second),
        full_in(grid, first + second) <==> full_in(grid, first) || full_in(grid, second),
        neighbours_in_range(first) && neighbours_in_range(second) ==> neighbours_in_range(
            first + second,
        ),
{
    let joined = first + second;
    if absent_in(first) {
        let n = choose|n: int| 0 <= n < first.len() && #[trigger] first[n] is None;
        assert(joined[n] is None);
    }
    if absent_in(second) {
        let n = choose|n: int| 0 <= n < second.len() && #[trigger] second[n] is None;
        assert(joined[first.len() + n] is None);
    }
    if absent_in(joined) {
        let n = choose|n: int| 0 <= n < joined.len() && #[trigger] joined[n] is None;
        if n < first.len() {
            assert(first[n] is None);
        } else {
            assert(second[n - first.len()] is None);
        }
    }
    if full_in(grid, first) {
        let n = choose|n: int|
            0 <= n < first.len() && (#[trigger] first[n]) is Some && grid[first[n].unwrap() as int]
                == Cell::Full;
        assert(joined[n] is Some && grid[joined[n].unwrap() as int] == Cell::Full);
    }
    if full_in(grid, second) {
        let n = choose|n: int|
            0 <= n < second.len() && (#[trigger] second[n]) is Some && grid[second[n].unwrap() as int]
                == Cell::Full;
        assert(joined[first.len() + n] is Some && grid[joined[first.len() + n].unwrap() as int]
            == Cell::Full);
    }
    if full_in(grid, joined) {
        let n = choose|n: int|
            0 <= n < joined.len() && (#[trigger] joined[n]) is Some && grid[joined[n].unwrap() as int]
                == Cell::Full;
        if n < first.len() {
            assert(first[n] is Some && grid[first[n].unwrap() as int] == Cell::Full);
        } else {
            assert(second[n - first.len()] is Some && grid[second[n - first.len()].unwrap() as int]
                == Cell::Full);
        }
    }
    if neighbours_in_range(first) && neighbours_in_range(second) {
        assert forall|n: int| 0 <= n < joined.len() && (#[trigger] joined[n]) is Some implies joined[n].unwrap()
            < GRID_LENGTH by {
            if n < first.len() {
                assert(first[n] is Some);
            } else {
                assert(second[n - first.len()] is Some);
            }
        }
    }
}

/// The piece may move exactly where none of its neighbours lies off the
/// playfield and none is a full cell.
pub proof fn lemma_neighbours_decide(state: StateView, direction: (int, int))
    requires
        state.grid.len() == GRID_LENGTH,
    ensures
        state.can_move(direction) <==> !absent_in(state.piece.neighbours(direction)) && !full_in(
            state.grid,
            state.piece.neighbours(direction),
        ),
        neighbours_in_range(state.piece.neighbours(direction)),
{
    let e0 = state.piece.neighbour_entry(direction, 0);
    let e1 = state.piece.neighbour_entry(direction, 1);
    let e2 = state.piece.neighbour_entry(direction, 2);
    let e3 = state.piece.neighbour_entry(direction, 3);
    lemma_entry_decides(state, direction, 0);
    lemma_entry_decides(state, direction, 1);
    lemma_entry_decides(state, direction, 2);
    lemma_entry_decides(state, direction, 3);
    lemma_lists_joined(state.grid, e0, e1);
    lemma_lists_joined(state.grid, e0 + e1, e2);
    lemma_lists_joined(state.grid, e0 + e1 + e2, e3);
}

/// Tells whether some neighbour of the list lies off the playfield.
pub fn has_absent_neighbour(collisions: &Vec<Option<usize>>) -> (absent: bool)
    ensures
        absent == absent_in(collisions@),
{
    let mut n: usize = 0;
    while n < collisions.len()
        invariant
            n <= collisions.len(),
            forall|m: int| 0 <= m < n ==> (#[trigger] collisions@[m]) is Some,
        decreases collisions.len() - n,
    {
        if collisions[n].is_none() {
            return true;
        }
        n += 1;
    }
    false
}

impl State {
    /// Tells whether some neighbour of the list is a full cell of the
    /// playfield.
    pub fn is_collision_with_other_tetromino(&self, collisions: Vec<Option<usize>>) -> (full: bool)
        requires
            neighbours_in_range(collisions@),
        ensures
            full == full_in(self@.grid, collisions@),
    {
        let mut n: usize = 0;
        while n < collisions.len()
            invariant
                n <= collisions.len(),
                neighbours_in_range(collisions@),
                forall|m: int|
                    0 <= m < n && (#[trigger] collisions@[m]) is Some ==> self@.grid[collisions@[m].unwrap() as int]
                        != Cell::Full,
            decreases collisions.len() - n,
        {
            if let Some(collision_index) = collisions[n] {
                let i: usize = collision_index / GRID_WIDTH;
                let j: usize = collision_index % GRID_WIDTH;
                if self.get_grid_cell(i, j) == Cell::Full {
                    return true;
                }
            }
            n += 1;
        }
        false
    }
}

/// A piece that may move one step to a side or down keeps its centre on
/// the playfield.
pub proof fn lemma_move_keeps_centre(state: StateView, direction: (int, int))
    requires
        state.piece.valid(),
        state.can_move(direction),
        direction == dir_left() || direction == dir_right() || direction == dir_down(),
    ensures
        state.piece.shifted(direction).valid(),
{
    state.piece.lemma_cells_near_centre();
}

/// A piece that lies over empty cells and moves one step to a side or down
/// lies, after the move, with all four cells on the playfield and over
/// empty cells.
pub proof fn lemma_move_lands_on_empty_cells(state: StateView, direction: (int, int))
    requires
        state.wf(),
        state.piece_is_free(),
        direction == dir_left() || direction == dir_right() || direction == dir_down(),
        state.can_move(direction),
    ensures
        state.moved(direction).piece == state.piece.shifted(direction),
        state.moved(direction).grid == state.grid,
        state.moved(direction).piece.valid(),
        state.moved(direction).piece.in_grid(),
        state.moved(direction).piece_is_free(),
{
    lemma_move_keeps_centre(state, direction);
}

impl State {
    /// Moves the falling piece one column to the left, unless the border of
    /// the playfield or a full cell is in its way.
    pub fn move_current_tetromino_left(&mut self)
        ensures
            final(self)@ == old(self)@.moved(dir_left()),
            old(self)@.wf() ==> final(self)@.wf(),
            old(self)@.wf() && old(self)@.piece_is_free() ==> final(self)@.piece_is_free(),
    {
        proof {
            if self@.wf() {
                lemma_moved_wf(self@, dir_left());
                if self@.piece_is_free() && self@.can_move(dir_left()) {
                    lemma_move_lands_on_empty_cells(self@, dir_left());
                }
            }
        }
        let collisions = self.get_current_tetromino_ref().get_left_collisions_cell_indexes();
        proof {
            lemma_neighbours_decide(self@, dir_left());
        }
        if has_absent_neighbour(&collisions) || self.is_collision_with_other_tetromino(collisions) {
            return ;
        }
        proof {
            lemma_move_keeps_centre(self@, dir_left());
        }
        self.get_current_tetromino_mutref().move_left();
    }
}

impl StateView {
    /// The playfield with the four cells of the piece filled.
    pub open spec fn piece_locked_grid(self) -> Seq<Cell> {
        self.grid.update(grid_index(self.piece.cell(0)), Cell::Full).update(
            grid_index(self.piece.cell(1)),
            Cell::Full,
        ).update(grid_index(self.piece.cell(2)), Cell::Full).update(
            grid_index(self.piece.cell(3)),
            Cell::Full,
        )
    }

    /// The game after the piece has been locked: its four cells are full,
    /// the head of the queue is the new piece, `fresh` ends the queue and
    /// the hold slot may be used again.
    pub open spec fn locked(self, fresh: Tetromino) -> StateView {
        (StateView { grid: self.piece_locked_grid(), ..self }).promoted(fresh)
    }

    /// The game after a move down: the piece one row lower where it may
    /// move, else the piece locked.
    pub open spec fn dropped(self, fresh: Tetromino) -> StateView {
        if self.can_move(dir_down()) {
            StateView { piece: self.piece.shifted(dir_down()), ..self }
        } else {
            self.locked(fresh)
        }
    }

    /// The game after the piece has been turned and its kick has been tried,
    /// whether or not the result lies on the playfield: the piece takes its
    /// next rotation; where it then sticks out to the left it moves right if
    /// it may, where it sticks out to the right it moves left if it may;
    /// where it then sticks out below, it moves one row up.
    pub open spec fn kicked(self) -> StateView {
        let turned = StateView { piece: self.piece.turned(), ..self };
        let pushed = if turned.piece.clips_left() {
            turned.moved(dir_right())
        } else if turned.piece.clips_right() {
            turned.moved(dir_left())
        } else {
            turned
        };
        if pushed.piece.clips_bottom() {
            StateView { piece: pushed.piece.shifted((-1, 0)), ..pushed }
        } else {
            pushed
        }
    }

    /// The game after a rotation: the piece turned and kicked where that
    /// leaves all its cells on the playfield, else the game unchanged.
    pub open spec fn rotated(self) -> StateView {
        if self.kicked().piece.in_grid() {
            self.kicked()
        } else {
            self
        }
    }

    /// The game after a swap with the hold slot. Where the slot may not be
    /// used, nothing changes. Else the kind of the piece goes to the slot;
    /// the kind that was there becomes the new piece, or, where the slot was
    /// empty, the head of the queue does. The slot may then not be used
    /// until a piece is locked.
    pub open spec fn swapped(self, fresh: Tetromino) -> StateView {
        if !self.can_hold {
            self
        } else {
            match self.hold {
                Some(kind) => StateView {
                    hold: Some(self.piece.kind),
                    piece: spawned(kind),
                    can_hold: false,
                    ..self
                },
                None => StateView {
                    hold: Some(self.piece.kind),
                    can_hold: false,
                    ..self.promoted(fresh)
                },
            }
        }
    }
}

impl State {
    /// Moves the falling piece one column to the right, unless the border
    /// of the playfield or a full cell is in its way.
    pub fn move_current_tetromino_right(&mut self)
        ensures
            final(self)@ == old(self)@.moved(dir_right()),
            old(self)@.wf() ==> final(self)@.wf(),
            old(self)@.wf() && old(self)@.piece_is_free() ==> final(self)@.piece_is_free(),
    {
        proof {
            if self@.wf() {
                lemma_moved_wf(self@, dir_right());
                if self@.piece_is_free() && self@.can_move(dir_right()) {
                    lemma_move_lands_on_empty_cells(self@, dir_right());
                }
            }
        }
        let collisions = self.get_current_tetromino_ref().get_right_collisions_cell_indexes();
        proof {
            lemma_neighbours_decide(self@, dir_right());
        }
        if has_absent_neighbour(&collisions) || self.is_collision_with_other_tetromino(collisions) {
            return ;
        }
        proof {
            lemma_move_keeps_centre(self@, dir_right());
        }
        self.get_current_tetromino_mutref().move_right();
    }

    /// Moves the falling piece one row down; where the bottom of the
    /// playfield or a full cell is in its way, locks it instead.
    pub fn move_current_tetromino_down(&mut self)
        requires
            old(self)@.piece.in_grid(),
        ensures
            final(self)@ == old(self)@.dropped(final(self)@.queue[2]),
            old(self)@.wf() ==> final(self)@.wf(),
            old(self)@.wf() && old(self)@.piece_is_free() && old(self)@.can_move(dir_down())
                ==> final(self)@.piece_is_free(),
    {
        proof {
            if self@.wf() {
                lemma_moved_wf(self@, dir_down());
                if self@.piece_is_free() && self@.can_move(dir_down()) {
                    lemma_move_lands_on_empty_cells(self@, dir_down());
                }
            }
        }
        let collisions = self.get_current_tetromino_ref().get_down_collisions_cell_indexes();
        proof {
            lemma_neighbours_decide(self@, dir_down());
        }
        if has_absent_neighbour(&collisions) {
            self.stick_current_tetromino();
            return ;
        }
        if self.is_collision_with_other_tetromino(collisions) {
            self.stick_current_tetromino();
        } else {
            proof {
                lemma_move_keeps_centre(self@, dir_down());
            }
            self.get_current_tetromino_mutref().move_down();
        }
    }

    /// Locks the falling piece: fills its four cells, makes the head of the
    /// queue the new piece and frees the hold slot.
    pub fn stick_current_tetromino(&mut self)
        requires
            old(self)@.piece.in_grid(),
        ensures
            final(self)@ == old(self)@.locked(final(self)@.queue[2]),
    {
        let old_tetromino_ref = self.get_current_tetromino_ref();
        let cells_coords = old_tetromino_ref.get_cells_coords();

        self.set_grid_cell(cells_coords.0.i, cells_coords.0.j, Cell::Full);
        self.set_grid_cell(cells_coords.1.i, cells_coords.1.j, Cell::Full);
        self.set_grid_cell(cells_coords.2.i, cells_coords.2.j, Cell::Full);
        self.set_grid_cell(cells_coords.3.i, cells_coords.3.j, Cell::Full);

        self.set_next_tetromino_to_current();
    }

    /// Turns the falling piece to its next rotation and kicks it off the
    /// borders. A rotation that would leave a cell of the piece off the
    /// playfield is not made.
    pub fn rotate_current_tetromino(&mut self)
        ensures
            final(self)@ == old(self)@.rotated(),
    {
        let before = *self.get_current_tetromino_ref();
        self.increment_rotation();

        match self.get_current_tetromino_ref().is_tetromino_clipping_horizontaly() {
            Ordering::Less => self.move_current_tetromino_right(),
            Ordering::Greater => self.move_current_tetromino_left(),
            Ordering::Equal => (),
        }

        if self.get_current_tetromino_ref().is_tetromino_clipping_vertically() {
            proof {
                self@.piece.lemma_cells_near_centre();
            }
            self.get_current_tetromino_mutref().move_up();
        }
        assert(self@ == old(self)@.kicked());

        if !self.get_current_tetromino_ref().is_inside_grid() {
            *self.get_current_tetromino_mutref() = before;
        }
    }

    /// Swaps the falling piece with the hold slot, where the slot may be
    /// used.
    pub fn swap_current_stored_tetrominos(&mut self)
        ensures
            final(self)@ == old(self)@.swapped(final(self)@.queue[2]),
    {
        if self.can_store() {
            let old_stored = self.get_stored_tetromino();
            self.set_stored_tetromino(Some(self.get_current_tetromino()));

            if let Some(tetromino) = old_stored {
                self.set_new_current_tetromino(tetromino);
            } else {
                self.set_next_tetromino_to_current();
            }
            self.set_can_store_flag(false);
        }
    }
}

/// Number of ticks between two sweeps of the playfield.
pub const LINES_FULL_CHECKING_TIME: u64 = 10;

/// Number of ticks between two falls of the piece, before the level
/// shortens it.
pub const DEFAULT_TETROMINO_FALLING_TIME: u64 = 80;

/// Number of ticks by which each level shortens the time between two falls.
pub const DELTA_FALLING_TIME: u64 = 5;

/// Number of cleared lines after which the level rises.
pub const LINES_PER_LEVEL: u32 = 10;

/// Points for one row cleared in a sweep, at level one.
pub const EARNED_POINTS_SINGLE: u32 = 10;

/// Points for two rows cleared in a sweep, at level one.
pub const EARNED_POINTS_DOUBLE: u32 = 30;

/// Points for three rows cleared in a sweep, at level one.
pub const EARNED_POINTS_TRIPLE: u32 = 50;

/// Points for four rows cleared in a sweep, at level one.
pub const EARNED_POINTS_TETRIS: u32 = 80;

/// Points that a sweep earns at level one for the rows it cleared: ten for
/// one row, thirty for two, fifty for three, eighty for four, else none.
pub open spec fn line_award(cleared: int) -> int {
    if cleared == 1 {
        10
    } else if cleared == 2 {
        30
    } else if cleared == 3 {
        50
    } else if cleared == 4 {
        80
    } else {
        0
    }
}

/// Number of ticks between two falls of the piece at a level: eighty less
/// five for each level, and at least one.
pub open spec fn gravity_period(level: int) -> int {
    if 80 - level * 5 >= 1 {
        80 - level * 5
    } else {
        1
    }
}

/// The playfield after the rows `0` to `n - 1` have been swept from the top
/// down: each row that is full when its turn comes is removed, the rows
/// above it move one row down and the top row becomes empty.
pub open spec fn swept_grid(grid: Seq<Cell>, n: int) -> Seq<Cell>
    decreases n,
{
    if n <= 0 {
        grid
    } else if row_full(swept_grid(grid, n - 1), n - 1) {
        rows_shifted(swept_grid(grid, n - 1), n - 1)
    } else {
        swept_grid(grid, n - 1)
    }
}

/// Number of rows that a sweep of the rows `0` to `n - 1` removes.
pub open spec fn swept_count(grid: Seq<Cell>, n: int) -> int
    decreases n,
{
    if n <= 0 {
        0
    } else if row_full(swept_grid(grid, n - 1), n - 1) {
        swept_count(grid, n - 1) + 1
    } else {
        swept_count(grid, n - 1)
    }
}

impl StateView {
    /// The counters fit their machine types.
    pub open spec fn counters_fit(self) -> bool {
        &&& self.score <= u32::MAX
        &&& self.level <= u32::MAX
        &&& self.lines <= u32::MAX
        &&& self.clock <= u64::MAX
    }

    /// The game after a sweep of the whole playfield: the full rows are
    /// removed and counted as lines, the score grows by the award for their
    /// number times the level, and the level rises by one where the lines
    /// have passed a multiple of ten.
    pub open spec fn swept(self) -> StateView {
        let cleared = swept_count(self.grid, GRID_HEIGHT as int);
        StateView {
            grid: swept_grid(self.grid, GRID_HEIGHT as int),
            lines: self.lines + cleared,
            score: self.score + line_award(cleared) * self.level,
            level: if self.lines / 10 < (self.lines + cleared) / 10 {
                self.level + 1
            } else {
                self.level
            },
            ..self
        }
    }

    /// The game after a command. `Pause` suspends a running game and
    /// resumes a suspended one, `Quit` changes nothing, and a suspended game
    /// ignores every other command.
    pub open spec fn performed(self, action: GameAction, fresh: Tetromino) -> StateView {
        match action {
            GameAction::Pause => StateView { paused: !self.paused, ..self },
            GameAction::Quit => self,
            _ => if self.paused {
                self
            } else {
                match action {
                    GameAction::Left => self.moved(dir_left()),
                    GameAction::Right => self.moved(dir_right()),
                    GameAction::Down => self.dropped(fresh),
                    GameAction::Rotate => self.rotated(),
                    GameAction::Store => self.swapped(fresh),
                    _ => self,
                }
            },
        }
    }

    /// The game after the clock has advanced by one and gravity has acted:
    /// the piece moves down, or is locked, on each tick that the gravity
    /// period of the level divides.
    pub open spec fn fallen(self, fresh: Tetromino) -> StateView {
        let advanced = StateView { clock: self.clock + 1, ..self };
        if advanced.clock % gravity_period(advanced.level) == 0 {
            advanced.dropped(fresh)
        } else {
            advanced
        }
    }

    /// The game after one tick. A suspended game stays as it is. Else the
    /// clock advances, gravity acts, and on every tenth tick the playfield
    /// is swept.
    pub open spec fn ticked(self, fresh: Tetromino) -> StateView {
        if self.paused {
            self
        } else if self.fallen(fresh).clock % 10 == 0 {
            self.fallen(fresh).swept()
        } else {
            self.fallen(fresh)
        }
    }
}

/// A sweep keeps the size of the playfield, removes between none and `n` of
/// the `n` rows it looks at, and removes no fewer rows when it looks at more.
pub proof fn lemma_swept_bounds(grid: Seq<Cell>, n: int, m: int)
    requires
        0 <= n <= m,
    ensures
        swept_grid(grid, n).len() == grid.len(),
        0 <= swept_count(grid, n) <= n,
        swept_count(grid, n) <= swept_count(grid, m),
    decreases m,
{
    if n > 0 {
        lemma_swept_bounds(grid, n - 1, n - 1);
    }
    if n < m {
        lemma_swept_bounds(grid, n, m - 1);
    }
}

/// After a sweep of the rows `0` to `n - 1`, none of these rows is full,
/// the rows below them are as they were, and as many rows have been removed
/// as were full among them before.
pub proof fn lemma_swept_rows(grid: Seq<Cell>, n: int)
    requires
        grid.len() == GRID_LENGTH,
        0 <= n <= GRID_HEIGHT,
    ensures
        swept_grid(grid, n).len() == grid.len(),
        no_full_row(swept_grid(grid, n), n),
        forall|k: int| n * GRID_WIDTH <= k < GRID_LENGTH ==> swept_grid(grid, n)[k] == grid[k],
        swept_count(grid, n) == full_rows(grid, n),
    decreases n,
{
    if n > 0 {
        let before = swept_grid(grid, n - 1);
        let after = swept_grid(grid, n);
        lemma_swept_rows(grid, n - 1);
        assert(row_full(before, n - 1) == row_full(grid, n - 1)) by {
            assert forall|j: int| 0 <= j < GRID_WIDTH implies #[trigger] before[(n - 1)
                * GRID_WIDTH + j] == grid[(n - 1) * GRID_WIDTH + j] by {}
        }
        if row_full(before, n - 1) {
            assert(after == rows_shifted(before, n - 1));
            assert forall|r: int| 0 <= r < n implies !#[trigger] row_full(after, r) by {
                if r == 0 {
                    assert(after[0 * GRID_WIDTH + 0] == Cell::Empty);
                } else {
                    assert(!row_full(before, r - 1));
                    let j = choose|j: int|
                        0 <= j < GRID_WIDTH && #[trigger] before[(r - 1) * GRID_WIDTH + j]
                            != Cell::Full;
                    assert(after[r * GRID_WIDTH + j] == before[(r - 1) * GRID_WIDTH + j]);
                }
            }
        } else {
            assert(after == before);
        }
    }
}

/// To empty a row and then move the rows above it down gives the same
/// playfield as to move them down at once; for the top row, to empty it is
/// all there is to do.
pub proof fn lemma_row_removed(grid: Seq<Cell>, i: int)
    requires
        grid.len() == GRID_LENGTH,
        0 <= i < GRID_HEIGHT,
    ensures
        i >= 1 ==> rows_shifted(row_cleared(grid, i), i) == rows_shifted(grid, i),
        i == 0 ==> row_cleared(grid, i) == rows_shifted(grid, i),
{
    if i >= 1 {
        assert(rows_shifted(row_cleared(grid, i), i) =~= rows_shifted(grid, i));
    } else {
        assert(row_cleared(grid, i) =~= rows_shifted(grid, i));
    }
}

/// Points that a sweep earns at level one for the rows it cleared.
pub fn earned_points(cleared: u32) -> (points: u32)
    ensures
        points == line_award(cleared as int),
{
    if cleared == 1 {
        EARNED_POINTS_SINGLE
    } else if cleared == 2 {
        EARNED_POINTS_DOUBLE
    } else if cleared == 3 {
        EARNED_POINTS_TRIPLE
    } else if cleared == 4 {
        EARNED_POINTS_TETRIS
    } else {
        0
    }
}

/// Number of ticks between two falls of the piece at a level.
pub fn falling_time(level: u32) -> (period: u64)
    ensures
        period == gravity_period(level as int),
        period >= 1,
{
    if level >= 16 {
        1
    } else {
        DEFAULT_TETROMINO_FALLING_TIME - (level as u64) * DELTA_FALLING_TIME
    }
}

impl State {
    /// Sweeps the playfield from the top down, removes every full row,
    /// counts the lines, adds the award to the score and raises the level
    /// where the lines have passed a multiple of ten. Returns the number of
    /// rows removed.
    pub fn clear_grid_lines_full(&mut self) -> (cleared: u32)
        requires
            old(self)@.swept().counters_fit(),
        ensures
            final(self)@ == old(self)@.swept(),
            cleared == swept_count(old(self)@.grid, GRID_HEIGHT as int),
            cleared == full_rows(old(self)@.grid, GRID_HEIGHT as int),
            cleared <= GRID_HEIGHT,
            no_full_row(final(self)@.grid, GRID_HEIGHT as int),
    {
        let old_lines_counter = self.get_lines();
        let ghost start = self@;
        proof {
            lemma_swept_bounds(start.grid, 0, GRID_HEIGHT as int);
        }

        let mut i: usize = 0;
        while i < GRID_HEIGHT
            invariant
                i <= GRID_HEIGHT,
                start == old(self)@,
                start.grid.len() == GRID_LENGTH,
                start.lines + swept_count(start.grid, GRID_HEIGHT as int) <= u32::MAX,
                self@ == (StateView {
                    grid: swept_grid(start.grid, i as int),
                    lines: start.lines + swept_count(start.grid, i as int),
                    ..start
                }),
            decreases GRID_HEIGHT - i,
        {
            proof {
                lemma_swept_bounds(start.grid, i as int, i as int + 1);
                lemma_swept_bounds(start.grid, i as int + 1, GRID_HEIGHT as int);
                lemma_row_removed(self@.grid, i as int);
            }
            if self.is_grid_line_full(i) {
                self.clear_grid_line(i);
                if i > 0 {
                    self.shift_tetromino_cells_down(i);
                }
            }
            i += 1;
        }

        proof {
            lemma_swept_bounds(start.grid, GRID_HEIGHT as int, GRID_HEIGHT as int);
            lemma_swept_rows(start.grid, GRID_HEIGHT as int);
        }
        let new_lines_counter = self.get_lines();
        let cleared: u32 = new_lines_counter - old_lines_counter;
        let points = earned_points(cleared);
        if points > 0 {
            let level = self.get_level();
            assert(points * level <= u32::MAX) by (nonlinear_arith)
                requires
                    start.score + points * level <= u32::MAX,
                    start.score >= 0,
            ;
            self.add_to_score(points * level);
        }
        if old_lines_counter / LINES_PER_LEVEL < new_lines_counter / LINES_PER_LEVEL {
            self.increment_level();
        }
        cleared
    }
}

/// Carries out a command of the player and tells whether the player asked
/// to leave the game. `Pause` suspends or resumes the game; a suspended game
/// ignores the moves, the rotation and the swap.
pub fn perform_action(state: &mut State, action: GameAction) -> (quit: bool)
    requires
        old(state)@.wf(),
    ensures
        final(state)@ == old(state)@.performed(action, final(state)@.queue[2]),
        final(state)@.wf(),
        final(state)@.level == old(state)@.level,
        final(state)@.lines == old(state)@.lines,
        final(state)@.score == old(state)@.score,
        quit == (action == GameAction::Quit),
{
    match action {
        GameAction::Quit => true,
        GameAction::Pause => {
            state.flip_paused_flag();
            false
        },
        _ => {
            if !state.is_game_paused() {
                proof {
                    lemma_performed_wf(state@, action);
                }
                match action {
                    GameAction::Left => state.move_current_tetromino_left(),
                    GameAction::Right => state.move_current_tetromino_right(),
                    GameAction::Down => state.move_current_tetromino_down(),
                    GameAction::Rotate => state.rotate_current_tetromino(),
                    GameAction::Store => state.swap_current_stored_tetrominos(),
                    _ => (),
                }
            }
            false
        },
    }
}

/// A command leaves a steady game steady, whatever kind is drawn.
pub proof fn lemma_performed_wf(state: StateView, action: GameAction)
    requires
        state.wf(),
    ensures
        forall|fresh: Tetromino| (#[trigger] state.performed(action, fresh)).wf(),
{
    assert forall|fresh: Tetromino| (#[trigger] state.performed(action, fresh)).wf() by {
        lemma_moved_wf(state, dir_left());
        lemma_moved_wf(state, dir_right());
        lemma_dropped_wf(state, fresh);
        lemma_rotated_wf(state);
        lemma_swapped_wf(state, fresh);
    }
}

/// A move to a side or down leaves the piece on the playfield.
pub proof fn lemma_moved_wf(state: StateView, direction: (int, int))
    requires
        state.wf(),
        direction == dir_left() || direction == dir_right() || direction == dir_down(),
    ensures
        state.moved(direction).wf(),
{
    if state.can_move(direction) {
        lemma_move_keeps_centre(state, direction);
    }
}

/// A new piece stands on the playfield after a lock.
pub proof fn lemma_locked_wf(state: StateView, fresh: Tetromino)
    requires
        state.wf(),
    ensures
        state.locked(fresh).wf(),
{
    crate::state::lemma_spawned_in_grid(state.queue[0]);
}

/// A move down leaves a steady game steady.
pub proof fn lemma_dropped_wf(state: StateView, fresh: Tetromino)
    requires
        state.wf(),
    ensures
        state.dropped(fresh).wf(),
{
    lemma_moved_wf(state, dir_down());
    lemma_locked_wf(state, fresh);
}

/// A rotation leaves a steady game steady.
pub proof fn lemma_rotated_wf(state: StateView)
    requires
        state.wf(),
    ensures
        state.rotated().wf(),
{
    let turned = StateView { piece: state.piece.turned(), ..state };
    if turned.can_move(dir_right()) {
        lemma_move_keeps_centre(turned, dir_right());
    }
    if turned.can_move(dir_left()) {
        lemma_move_keeps_centre(turned, dir_left());
    }
    state.kicked().piece.lemma_cells_near_centre();
}

/// A swap with the hold slot leaves a steady game steady.
pub proof fn lemma_swapped_wf(state: StateView, fresh: Tetromino)
    requires
        state.wf(),
    ensures
        state.swapped(fresh).wf(),
{
    crate::state::lemma_spawned_in_grid(state.queue[0]);
    if state.hold is Some {
        crate::state::lemma_spawned_in_grid(state.hold.unwrap());
    }
}

impl StateView {
    /// The counters leave room for whatever one tick may add: one step of
    /// the clock, a sweep of every row, the largest award and one level.
    pub open spec fn has_room(self) -> bool {
        &&& self.clock < u64::MAX
        &&& self.lines + GRID_HEIGHT <= u32::MAX
        &&& self.score + EARNED_POINTS_TETRIS * self.level <= u32::MAX
        &&& self.level < u32::MAX
    }
}

/// Where the counters leave room, they fit their machine types after a
/// tick, whatever kind is drawn.
pub proof fn lemma_room_suffices(state: StateView, fresh: Tetromino)
    requires
        state.representable(),
        state.has_room(),
    ensures
        state.ticked(fresh).counters_fit(),
{
    let fallen = state.fallen(fresh);
    let cleared = swept_count(fallen.grid, GRID_HEIGHT as int);
    lemma_swept_bounds(fallen.grid, GRID_HEIGHT as int, GRID_HEIGHT as int);
    assert(line_award(cleared) * state.level <= 80 * state.level) by (nonlinear_arith)
        requires
            0 <= line_award(cleared) <= 80,
            state.level >= 0,
    ;
}

impl State {
    /// Tells whether the game is in a steady state: all four cells of the
    /// piece lie on the playfield and the level is at least one.
    pub fn is_steady(&self) -> (steady: bool)
        ensures
            steady == self@.wf(),
    {
        let level = self.get_level();
        self.get_current_tetromino_ref().is_inside_grid() && level >= 1
    }

    /// Tells whether the counters leave room for one more tick.
    pub fn has_room_for_tick(&self) -> (room: bool)
        ensures
            room == self@.has_room(),
            room ==> forall|fresh: Tetromino| (#[trigger] self@.ticked(fresh)).counters_fit(),
    {
        let clock = self.get_clock();
        let lines = self.get_lines();
        let score = self.get_score();
        let level = self.get_level();
        proof {
            if self@.has_room() {
                assert forall|fresh: Tetromino| (#[trigger] self@.ticked(fresh)).counters_fit() by {
                    lemma_room_suffices(self@, fresh);
                }
            }
        }
        let limit: u64 = 0xffff_ffff;
        let award: u64 = 80;
        clock < u64::MAX && lines <= u32::MAX - 20 && (score as u64) + award * (level as u64)
            <= limit && level < u32::MAX
    }
}

/// Advances the game by one tick. A suspended game stays as it is. Else the
/// clock advances by one; the falling piece moves down, or is locked, on
/// each tick that the gravity period of the level divides; and on every
/// tenth tick the playfield is swept.
pub fn increment_clock_and_trigger_events(state: &mut State)
    requires
        old(state)@.wf(),
        forall|fresh: Tetromino| (#[trigger] old(state)@.ticked(fresh)).counters_fit(),
    ensures
        final(state)@ == old(state)@.ticked(final(state)@.queue[2]),
        final(state)@.wf(),
        final(state)@.lines >= old(state)@.lines,
        final(state)@.level == old(state)@.level || (final(state)@.level == old(state)@.level + 1
            && old(state)@.lines / 10 < final(state)@.lines / 10),
{
    if state.is_game_paused() {
        return ;
    }
    assert(old(state)@.ticked(Tetromino::I).counters_fit());
    state.increment_clock();

    if state.get_clock() % falling_time(state.get_level()) == 0 {
        proof {
            lemma_dropped_wf(state@, Tetromino::I);
        }
        state.move_current_tetromino_down();
        proof {
            lemma_dropped_wf(
                StateView { clock: old(state)@.clock + 1, ..old(state)@ },
                state@.queue[2],
            );
        }
    }
    assert(state@ == old(state)@.fallen(state@.queue[2]));
    assert(old(state)@.ticked(state@.queue[2]).counters_fit());

    if state.get_clock() % LINES_FULL_CHECKING_TIME == 0 {
        proof {
            lemma_swept_bounds(state@.grid, GRID_HEIGHT as int, GRID_HEIGHT as int);
        }
        state.clear_grid_lines_full();
    }
}

} // verus!
