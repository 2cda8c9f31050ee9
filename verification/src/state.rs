use vstd::prelude::*;
use crate::cell::Cell;
use crate::tetromino::{kind_of_index, Tetromino};
use crate::{GRID_HEIGHT, GRID_LENGTH, GRID_WIDTH, NEXT_TETROMINOS_QUEUE_SIZE};

verus! {

/// Row and column of a cell of the playfield.
#[derive(Clone, Copy, Debug, PartialEq, Eq, Structural)]
pub struct GridCoords {
    pub i: usize,
    pub j: usize,
}

impl GridCoords {
    /// The cell lies on the playfield.
    pub open spec fn in_grid(self) -> bool {
        self.i < GRID_HEIGHT && self.j < GRID_WIDTH
    }

    /// Row and column as a pair of mathematical integers.
    pub open spec fn as_cell(self) -> (int, int) {
        (self.i as int, self.j as int)
    }

    /// Tells whether two cells have the same row and the same column.
    pub fn equals(&self, other: &GridCoords) -> (same: bool)
        ensures
            same == (self.i == other.i && self.j == other.j),
    {
        self.i == other.i && self.j == other.j
    }

    /// Place of the cell in the playfield stored row by row.
    pub fn to_grid_index(&self) -> (index: usize)
        requires
            self.i * GRID_WIDTH + self.j <= usize::MAX,
        ensures
            index == self.i * GRID_WIDTH + self.j,
    {
        self.i * GRID_WIDTH + self.j
    }
}

/// Mathematical value of a falling piece: its kind, the row and the column of
/// its centre, and its rotation.
pub ghost struct Piece {
    pub kind: Tetromino,
    pub row: int,
    pub col: int,
    pub rotation: int,
}

/// The falling piece: its kind, the cell of its centre and its rotation.
#[derive(Clone, Copy, Debug)]
pub struct CurrentTetromino {
    tetromino: Tetromino,
    position: GridCoords,
    rotation: usize,
}

impl View for CurrentTetromino {
    type V = Piece;

    closed spec fn view(&self) -> Piece {
        Piece {
            kind: self.tetromino,
            row: self.position.i as int,
            col: self.position.j as int,
            rotation: self.rotation as int,
        }
    }
}

impl Piece {
    /// The centre lies on the playfield and the rotation is one of the four.
    pub open spec fn valid(self) -> bool {
        &&& 0 <= self.row < GRID_HEIGHT
        &&& 0 <= self.col < GRID_WIDTH
        &&& 0 <= self.rotation < 4
    }

    /// The piece turned to its next rotation, the centre unmoved.
    pub open spec fn turned(self) -> Piece {
        Piece { rotation: (self.rotation + 1) % 4, ..self }
    }
}

impl CurrentTetromino {
    /// What holds of every falling piece: its centre lies on the playfield
    /// and its rotation is one of the four.
    #[verifier::type_invariant]
    closed spec fn centred_on_grid(self) -> bool {
        self@.valid()
    }

    /// Kind of the piece.
    pub fn get_tetromino(&self) -> (kind: Tetromino)
        ensures
            kind == self@.kind,
    {
        self.tetromino
    }

    /// Cell of the centre of the piece.
    pub fn get_position(&self) -> (position: GridCoords)
        ensures
            position.i == self@.row,
            position.j == self@.col,
            self@.valid(),
    {
        proof {
            use_type_invariant(self);
        }
        self.position
    }

    /// Rotation of the piece, from `0` to `3`.
    pub fn get_rotation(&self) -> (rotation: usize)
        ensures
            rotation == self@.rotation,
            self@.valid(),
    {
        proof {
            use_type_invariant(self);
        }
        self.rotation
    }

    /// Moves the centre one column to the left.
    pub fn move_left(&mut self)
        requires
            old(self)@.col > 0,
        ensures
            final(self)@ == (Piece { col: old(self)@.col - 1, ..old(self)@ }),
    {
        proof {
            use_type_invariant(&*self);
        }
        self.position.j -= 1
    }

    /// Moves the centre one column to the right.
    pub fn move_right(&mut self)
        requires
            old(self)@.col + 1 < GRID_WIDTH,
        ensures
            final(self)@ == (Piece { col: old(self)@.col + 1, ..old(self)@ }),
    {
        proof {
            use_type_invariant(&*self);
        }
        self.position.j += 1
    }

    /// Moves the centre one row down.
    pub fn move_down(&mut self)
        requires
            old(self)@.row + 1 < GRID_HEIGHT,
        ensures
            final(self)@ == (Piece { row: old(self)@.row + 1, ..old(self)@ }),
    {
        proof {
            use_type_invariant(&*self);
        }
        self.position.i += 1
    }

    /// Moves the centre one row up.
    pub fn move_up(&mut self)
        requires
            old(self)@.row > 0,
        ensures
            final(self)@ == (Piece { row: old(self)@.row - 1, ..old(self)@ }),
    {
        proof {
            use_type_invariant(&*self);
        }
        self.position.i -= 1
    }
}

/// Row of the cell in which the centre of a new piece appears.
pub const SPAWN_ROW: usize = 1;

/// Column of the cell in which the centre of a new piece appears.
pub const SPAWN_COLUMN: usize = 4;

/// A new piece of the given kind: at the spawn cell, not rotated.
pub open spec fn spawned(kind: Tetromino) -> Piece {
    Piece { kind, row: SPAWN_ROW as int, col: SPAWN_COLUMN as int, rotation: 0 }
}

/// Every cell of row `i` is full.
pub open spec fn row_full(grid: Seq<Cell>, i: int) -> bool {
    forall|j: int| 0 <= j < GRID_WIDTH ==> #[trigger] grid[i * GRID_WIDTH + j] == Cell::Full
}

/// The grid with every cell of row `i` emptied.
pub open spec fn row_cleared(grid: Seq<Cell>, i: int) -> Seq<Cell> {
    Seq::new(
        grid.len(),
        |k: int|
            if i * GRID_WIDTH <= k < (i + 1) * GRID_WIDTH {
                Cell::Empty
            } else {
                grid[k]
            },
    )
}

/// The grid with the rows above row `i` moved one row down, onto the rows
/// `1` to `i`, and with row `0` emptied. The rows below row `i` stay.
pub open spec fn rows_shifted(grid: Seq<Cell>, i: int) -> Seq<Cell> {
    Seq::new(
        grid.len(),
        |k: int|
            if k < GRID_WIDTH {
                Cell::Empty
            } else if k < (i + 1) * GRID_WIDTH {
                grid[k - GRID_WIDTH]
            } else {
                grid[k]
            },
    )
}

/// Number of full rows among the rows `0` to `n - 1` of a playfield.
pub open spec fn full_rows(grid: Seq<Cell>, n: int) -> int
    decreases n,
{
    if n <= 0 {
        0
    } else if row_full(grid, n - 1) {
        full_rows(grid, n - 1) + 1
    } else {
        full_rows(grid, n - 1)
    }
}

/// No row among the rows `0` to `n - 1` of a playfield is full.
pub open spec fn no_full_row(grid: Seq<Cell>, n: int) -> bool {
    forall|r: int| 0 <= r < n ==> !#[trigger] row_full(grid, r)
}

/// Mathematical value of a game: the playfield row by row, the falling
/// piece, the hold slot, the queue of coming kinds, the counters, the clock
/// and the pause flag.
pub ghost struct StateView {
    pub grid: Seq<Cell>,
    pub piece: Piece,
    pub hold: Option<Tetromino>,
    pub can_hold: bool,
    pub queue: Seq<Tetromino>,
    pub score: int,
    pub level: int,
    pub lines: int,
    pub clock: int,
    pub paused: bool,
}

impl StateView {
    /// The value is one that a game in memory can have: the playfield and
    /// the queue have their fixed sizes, the centre of the piece lies on
    /// the playfield, and the counters fit their machine types.
    pub open spec fn representable(self) -> bool {
        &&& self.grid.len() == GRID_LENGTH
        &&& self.queue.len() == NEXT_TETROMINOS_QUEUE_SIZE
        &&& self.piece.valid()
        &&& 0 <= self.score <= u32::MAX
        &&& 0 <= self.level <= u32::MAX
        &&& 0 <= self.lines <= u32::MAX
        &&& 0 <= self.clock <= u64::MAX
    }

    /// The game is in a steady state: representable, with all four cells of
    /// the piece on the playfield and a level of at least one.
    pub open spec fn wf(self) -> bool {
        &&& self.representable()
        &&& self.piece.in_grid()
        &&& self.level >= 1
    }

    /// The cell in row `i` and column `j`.
    pub open spec fn cell_at(self, i: int, j: int) -> Cell {
        self.grid[i * GRID_WIDTH + j]
    }

    /// The game as it starts: an empty playfield, a piece of kind `first` at
    /// the spawn cell, the three kinds that follow it in the queue, an empty
    /// hold slot, level one and all counters at zero.
    pub open spec fn initial(
        first: Tetromino,
        second: Tetromino,
        third: Tetromino,
        fourth: Tetromino,
    ) -> StateView {
        StateView {
            grid: Seq::new(GRID_LENGTH as nat, |k: int| Cell::Empty),
            piece: spawned(first),
            hold: None,
            can_hold: true,
            queue: seq![second, third, fourth],
            score: 0,
            level: 1,
            lines: 0,
            clock: 0,
            paused: false,
        }
    }
}

/// `rand::rngs::ThreadRng`, the handle of a thread's random generator. A
/// game carries it along; nothing is known of what it holds.
#[verifier::external_type_specification]
#[verifier::external_body]
pub struct ExThreadRng(rand::rngs::ThreadRng);

/// Calls `rand::rng`, which hands out the generator of the calling thread.
/// Nothing is claimed of the generator. The call fails only where the
/// operating system cannot seed a generator.
#[verifier::external_body]
fn thread_generator() -> rand::rngs::ThreadRng {
    rand::rng()
}

/// Calls `rand::Rng::random` for a `u32` on the thread's generator. Any
/// number may come back, so nothing is claimed of the result.
#[verifier::external_body]
fn random_number(rng: &mut rand::rngs::ThreadRng) -> u32 {
    rand::Rng::random::<u32>(rng)
}

/// A game: the playfield, the falling piece, the hold slot, the queue of
/// coming kinds, the counters, the clock and the source of random kinds.
pub struct State {
    grid: [Cell; GRID_LENGTH],
    current_tetromino: CurrentTetromino,
    hold: Option<Tetromino>,
    can_hold: bool,
    next_tetrominos_queue: [Tetromino; NEXT_TETROMINOS_QUEUE_SIZE],
    score: u32,
    level: u32,
    lines: u32,
    clock: u64,
    paused: bool,
    rng: rand::rngs::ThreadRng,
}

impl View for State {
    type V = StateView;

    closed spec fn view(&self) -> StateView {
        StateView {
            grid: self.grid@,
            piece: self.current_tetromino@,
            hold: self.hold,
            can_hold: self.can_hold,
            queue: self.next_tetrominos_queue@,
            score: self.score as int,
            level: self.level as int,
            lines: self.lines as int,
            clock: self.clock as int,
            paused: self.paused,
        }
    }
}

impl State {
    /// A new game, with the first four kinds drawn at random.
    pub fn new() -> (state: State)
        ensures
            state@.wf(),
            state@ == StateView::initial(
                state@.piece.kind,
                state@.queue[0],
                state@.queue[1],
                state@.queue[2],
            ),
    {
        let mut rng = thread_generator();
        let first = random_number(&mut rng);
        let second = random_number(&mut rng);
        let third = random_number(&mut rng);
        let fourth = random_number(&mut rng);
        State::from_samples(rng, first, second, third, fourth)
    }

    /// A new game whose first four kinds are those that four sampled
    /// numbers select: the first becomes the falling piece, the others fill
    /// the queue.
    pub fn from_samples(
        rng: rand::rngs::ThreadRng,
        first: u32,
        second: u32,
        third: u32,
        fourth: u32,
    ) -> (state: State)
        ensures
            state@.wf(),
            state@ == StateView::initial(
                kind_of_index(first as int),
                kind_of_index(second as int),
                kind_of_index(third as int),
                kind_of_index(fourth as int),
            ),
    {
        let state = State {
            grid: [Cell::Empty;GRID_LENGTH],
            current_tetromino: CurrentTetromino {
                tetromino: Tetromino::from_index(first),
                position: GridCoords { i: SPAWN_ROW, j: SPAWN_COLUMN },
                rotation: 0,
            },
            hold: None,
            can_hold: true,
            next_tetrominos_queue: [
                Tetromino::from_index(second),
                Tetromino::from_index(third),
                Tetromino::from_index(fourth),
            ],
            score: 0,
            level: 1,
            lines: 0,
            clock: 0,
            paused: false,
            rng,
        };
        proof {
            assert(state@.grid =~= Seq::new(GRID_LENGTH as nat, |k: int| Cell::Empty));
            assert(state@.queue =~= seq![
                kind_of_index(second as int),
                kind_of_index(third as int),
                kind_of_index(fourth as int),
            ]);
            lemma_spawned_in_grid(kind_of_index(first as int));
        }
        state
    }
}

impl StateView {
    /// The game after the head of the queue has become the falling piece:
    /// the new piece stands at the spawn cell, the queue has moved up by one
    /// with `fresh` at its end, and the hold slot may be used again.
    pub open spec fn promoted(self, fresh: Tetromino) -> StateView {
        StateView {
            piece: spawned(self.queue[0]),
            queue: seq![self.queue[1], self.queue[2], fresh],
            can_hold: true,
            ..self
        }
    }
}

impl State {
    /// The cell in row `i` and column `j` of the playfield.
    pub fn get_grid_cell(&self, i: usize, j: usize) -> (cell: Cell)
        requires
            i < GRID_HEIGHT,
            j < GRID_WIDTH,
        ensures
            cell == self@.cell_at(i as int, j as int),
    {
        self.grid[i * GRID_WIDTH + j]
    }

    /// The falling piece.
    pub fn get_current_tetromino_ref(&self) -> (piece: &CurrentTetromino)
        ensures
            piece@ == self@.piece,
            self@.representable(),
    {
        proof {
            use_type_invariant(&self.current_tetromino);
        }
        &self.current_tetromino
    }

    /// The falling piece, to be moved in place. The rest of the game stays
    /// as it is.
    pub fn get_current_tetromino_mutref(&mut self) -> (piece: &mut CurrentTetromino)
        ensures
            piece@ == old(self)@.piece,
            final(self)@ == (StateView { piece: final(piece)@, ..old(self)@ }),
    {
        &mut self.current_tetromino
    }

    /// Kind of the falling piece.
    pub fn get_current_tetromino(&self) -> (kind: Tetromino)
        ensures
            kind == self@.piece.kind,
    {
        self.current_tetromino.tetromino
    }

    /// Cell of the centre of the falling piece.
    pub fn get_current_tetromino_position(&self) -> (position: GridCoords)
        ensures
            position.as_cell() == (self@.piece.row, self@.piece.col),
            position.in_grid(),
    {
        proof {
            use_type_invariant(&self.current_tetromino);
        }
        self.current_tetromino.position
    }

    /// Rotation of the falling piece, from `0` to `3`.
    pub fn get_current_tetromino_rotation(&self) -> (rotation: usize)
        ensures
            rotation == self@.piece.rotation,
            rotation < 4,
    {
        proof {
            use_type_invariant(&self.current_tetromino);
        }
        self.current_tetromino.rotation
    }

    /// Kind in the hold slot, if there is one.
    pub fn get_stored_tetromino(&self) -> (hold: Option<Tetromino>)
        ensures
            hold == self@.hold,
    {
        self.hold
    }

    /// Tells whether the hold slot may be used.
    pub fn can_store(&self) -> (allowed: bool)
        ensures
            allowed == self@.can_hold,
    {
        self.can_hold
    }

    /// The kind at place `index` of the queue; place `0` is the next piece.
    pub fn get_in_next_tetromino_queue(&self, index: usize) -> (kind: Tetromino)
        requires
            index < NEXT_TETROMINOS_QUEUE_SIZE,
        ensures
            kind == self@.queue[index as int],
    {
        self.next_tetrominos_queue[index]
    }

    /// The score.
    pub fn get_score(&self) -> (score: u32)
        ensures
            score == self@.score,
            self@.representable(),
    {
        proof {
            use_type_invariant(&self.current_tetromino);
        }
        self.score
    }

    /// The level.
    pub fn get_level(&self) -> (level: u32)
        ensures
            level == self@.level,
            self@.representable(),
    {
        proof {
            use_type_invariant(&self.current_tetromino);
        }
        self.level
    }

    /// Number of lines cleared so far.
    pub fn get_lines(&self) -> (lines: u32)
        ensures
            lines == self@.lines,
            self@.representable(),
    {
        proof {
            use_type_invariant(&self.current_tetromino);
        }
        self.lines
    }

    /// Number of ticks so far.
    pub fn get_clock(&self) -> (clock: u64)
        ensures
            clock == self@.clock,
            self@.representable(),
    {
        proof {
            use_type_invariant(&self.current_tetromino);
        }
        self.clock
    }

    /// Tells whether the game is suspended.
    pub fn is_game_paused(&self) -> (paused: bool)
        ensures
            paused == self@.paused,
    {
        self.paused
    }

    /// Tells whether every cell of row `i` is full.
    pub fn is_grid_line_full(&self, i: usize) -> (full: bool)
        requires
            i < GRID_HEIGHT,
        ensures
            full == row_full(self@.grid, i as int),
    {
        let mut j: usize = 0;
        while j < GRID_WIDTH
            invariant
                i < GRID_HEIGHT,
                j <= GRID_WIDTH,
                forall|c: int| 0 <= c < j ==> #[trigger] self@.grid[i * GRID_WIDTH + c] == Cell::Full,
            decreases GRID_WIDTH - j,
        {
            if self.grid[i * GRID_WIDTH + j] == Cell::Empty {
                assert(self@.grid[i * GRID_WIDTH + j] != Cell::Full);
                return false;
            }
            j += 1;
        }
        true
    }
}

impl State {
    /// Sets the cell in row `i` and column `j` of the playfield.
    pub fn set_grid_cell(&mut self, i: usize, j: usize, cell: Cell)
        requires
            i < GRID_HEIGHT,
            j < GRID_WIDTH,
        ensures
            final(self)@ == (StateView {
                grid: old(self)@.grid.update(i * GRID_WIDTH + j, cell),
                ..old(self)@
            }),
    {
        self.grid[i * GRID_WIDTH + j] = cell
    }

    /// Raises the level by one.
    pub fn increment_level(&mut self)
        requires
            old(self)@.level < u32::MAX,
        ensures
            final(self)@ == (StateView { level: old(self)@.level + 1, ..old(self)@ }),
    {
        self.level += 1;
    }

    /// Lowers the level by one, but not under the first level.
    pub fn decrement_level(&mut self)
        ensures
            final(self)@ == (StateView {
                level: if old(self)@.level > 1 {
                    old(self)@.level - 1
                } else {
                    old(self)@.level
                },
                ..old(self)@
            }),
    {
        let l = self.level;
        self.level = if l > 1 {
            l - 1
        } else {
            l
        };
    }

    /// Turns the falling piece to its next rotation, without moving it.
    pub fn increment_rotation(&mut self)
        ensures
            final(self)@ == (StateView {
                piece: old(self)@.piece.turned(),
                ..old(self)@
            }),
    {
        proof {
            use_type_invariant(&self.current_tetromino);
        }
        self.current_tetromino.rotation = (self.current_tetromino.rotation + 1) % 4;
    }

    /// Advances the clock by one tick.
    pub fn increment_clock(&mut self)
        requires
            old(self)@.clock < u64::MAX,
        ensures
            final(self)@ == (StateView { clock: old(self)@.clock + 1, ..old(self)@ }),
    {
        self.clock += 1
    }

    /// Adds points to the score.
    pub fn add_to_score(&mut self, points: u32)
        requires
            old(self)@.score + points <= u32::MAX,
        ensures
            final(self)@ == (StateView { score: old(self)@.score + points, ..old(self)@ }),
    {
        self.score += points
    }

    /// Suspends a running game and resumes a suspended one.
    pub fn flip_paused_flag(&mut self)
        ensures
            final(self)@ == (StateView { paused: !old(self)@.paused, ..old(self)@ }),
    {
        self.paused = !self.paused
    }

    /// Takes the head of the queue, moves the queue up by one and puts a
    /// kind drawn at random at its end.
    pub fn pop_tetromino_queue(&mut self) -> (head: Tetromino)
        ensures
            head == old(self)@.queue[0],
            final(self)@ == (StateView {
                queue: seq![old(self)@.queue[1], old(self)@.queue[2], final(self)@.queue[2]],
                ..old(self)@
            }),
    {
        let tetromino = self.next_tetrominos_queue[0];
        self.next_tetrominos_queue[0] = self.next_tetrominos_queue[1];
        self.next_tetrominos_queue[1] = self.next_tetrominos_queue[2];
        self.next_tetrominos_queue[2] = self.get_random_tetromino();
        assert(self@.queue =~= seq![old(self)@.queue[1], old(self)@.queue[2], self@.queue[2]]);
        tetromino
    }

    /// Replaces the falling piece by a new piece of the given kind.
    pub fn set_new_current_tetromino(&mut self, new_tetromino: Tetromino)
        ensures
            final(self)@ == (StateView { piece: spawned(new_tetromino), ..old(self)@ }),
    {
        self.current_tetromino =
        CurrentTetromino {
            tetromino: new_tetromino,
            position: GridCoords { i: SPAWN_ROW, j: SPAWN_COLUMN },
            rotation: 0,
        };
    }

    /// Makes the head of the queue the falling piece, refills the queue and
    /// frees the hold slot.
    pub fn set_next_tetromino_to_current(&mut self)
        ensures
            final(self)@ == old(self)@.promoted(final(self)@.queue[2]),
    {
        let head = self.pop_tetromino_queue();
        self.set_new_current_tetromino(head);
        self.set_can_store_flag(true);
    }

    /// A kind drawn at random.
    fn get_random_tetromino(&mut self) -> (kind: Tetromino)
        ensures
            final(self)@ == old(self)@,
    {
        Tetromino::from_index(self.get_random_u32())
    }

    /// A number drawn at random.
    fn get_random_u32(&mut self) -> (number: u32)
        ensures
            final(self)@ == old(self)@,
    {
        random_number(&mut self.rng)
    }

    /// Puts a kind, or nothing, into the hold slot.
    pub fn set_stored_tetromino(&mut self, tetromino: Option<Tetromino>)
        ensures
            final(self)@ == (StateView { hold: tetromino, ..old(self)@ }),
    {
        self.hold = tetromino;
    }

    /// Allows or forbids the use of the hold slot.
    pub fn set_can_store_flag(&mut self, value: bool)
        ensures
            final(self)@ == (StateView { can_hold: value, ..old(self)@ }),
    {
        self.can_hold = value
    }
}

impl State {
    /// Empties row `i` and counts one more cleared line.
    pub fn clear_grid_line(&mut self, i: usize)
        requires
            i < GRID_HEIGHT,
            old(self)@.lines < u32::MAX,
        ensures
            final(self)@ == (StateView {
                grid: row_cleared(old(self)@.grid, i as int),
                lines: old(self)@.lines + 1,
                ..old(self)@
            }),
    {
        let mut j: usize = 0;
        while j < GRID_WIDTH
            invariant
                i < GRID_HEIGHT,
                j <= GRID_WIDTH,
                self@ == (StateView { grid: self@.grid, ..old(self)@ }),
                self@.grid.len() == GRID_LENGTH,
                forall|k: int|
                    0 <= k < GRID_LENGTH ==> #[trigger] self@.grid[k] == if i * GRID_WIDTH <= k < i
                        * GRID_WIDTH + j {
                        Cell::Empty
                    } else {
                        old(self)@.grid[k]
                    },
            decreases GRID_WIDTH - j,
        {
            self.set_grid_cell(i, j, Cell::Empty);
            j += 1;
        }
        self.lines += 1;
        assert(self@.grid =~= row_cleared(old(self)@.grid, i as int));
    }

    /// Moves the rows above row `row_limit` one row down, onto the rows `1`
    /// to `row_limit`, and empties row `0`.
    pub fn shift_tetromino_cells_down(&mut self, row_limit: usize)
        requires
            1 <= row_limit < GRID_HEIGHT,
        ensures
            final(self)@ == (StateView {
                grid: rows_shifted(old(self)@.grid, row_limit as int),
                ..old(self)@
            }),
    {
        let mut j: usize = 0;
        while j < GRID_WIDTH
            invariant
                1 <= row_limit < GRID_HEIGHT,
                j <= GRID_WIDTH,
                self@ == (StateView { grid: self@.grid, ..old(self)@ }),
                self@.grid.len() == GRID_LENGTH,
                forall|r: int, c: int|
                    0 <= r < GRID_HEIGHT && 0 <= c < GRID_WIDTH ==> #[trigger] self@.grid[r
                        * GRID_WIDTH + c] == if c < j {
                        column_shifted(old(self)@.grid, row_limit as int, r, c)
                    } else {
                        old(self)@.grid[r * GRID_WIDTH + c]
                    },
            decreases GRID_WIDTH - j,
        {
            self.shift_tetromino_column_down(row_limit, j);
            j += 1;
        }
        proof {
            let shifted = rows_shifted(old(self)@.grid, row_limit as int);
            assert forall|k: int| 0 <= k < GRID_LENGTH implies self@.grid[k] == shifted[k] by {
                let r = k / 10;
                let c = k % 10;
                assert(k == r * GRID_WIDTH + c);
                assert(self@.grid[r * GRID_WIDTH + c] == column_shifted(
                    old(self)@.grid,
                    row_limit as int,
                    r,
                    c,
                ));
            }
            assert(self@.grid =~= shifted);
        }
    }

    /// Moves the cells of column `j` above row `row_limit` one row down and
    /// empties the cell in row `0`.
    fn shift_tetromino_column_down(&mut self, row_limit: usize, j: usize)
        requires
            1 <= row_limit < GRID_HEIGHT,
            j < GRID_WIDTH,
        ensures
            final(self)@ == (StateView { grid: final(self)@.grid, ..old(self)@ }),
            final(self)@.grid.len() == old(self)@.grid.len(),
            forall|r: int, c: int|
                0 <= r < GRID_HEIGHT && 0 <= c < GRID_WIDTH ==> #[trigger] final(self)@.grid[r
                    * GRID_WIDTH + c] == if c == j {
                    column_shifted(old(self)@.grid, row_limit as int, r, c)
                } else {
                    old(self)@.grid[r * GRID_WIDTH + c]
                },
    {
        let mut i: usize = row_limit - 1;
        let mut cell = self.get_grid_cell(i, j);
        while i > 0
            invariant
                1 <= row_limit < GRID_HEIGHT,
                j < GRID_WIDTH,
                i < row_limit,
                cell == old(self)@.grid[i * GRID_WIDTH + j],
                self@ == (StateView { grid: self@.grid, ..old(self)@ }),
                self@.grid.len() == GRID_LENGTH,
                forall|r: int, c: int|
                    0 <= r < GRID_HEIGHT && 0 <= c < GRID_WIDTH ==> #[trigger] self@.grid[r
                        * GRID_WIDTH + c] == if c == j && i + 1 < r <= row_limit {
                        old(self)@.grid[(r - 1) * GRID_WIDTH + c]
                    } else {
                        old(self)@.grid[r * GRID_WIDTH + c]
                    },
            decreases i,
        {
            self.set_grid_cell(i + 1, j, cell);
            i -= 1;
            cell = self.get_grid_cell(i, j);
        }
        self.set_grid_cell(1, j, cell);
        self.set_grid_cell(0, j, Cell::Empty);
    }
}

/// The cell in row `r` and column `c` after the rows above row `i` have
/// moved one row down.
pub open spec fn column_shifted(grid: Seq<Cell>, i: int, r: int, c: int) -> Cell {
    if r == 0 {
        Cell::Empty
    } else if r <= i {
        grid[(r - 1) * GRID_WIDTH + c]
    } else {
        grid[r * GRID_WIDTH + c]
    }
}

/// A new piece of any kind lies on the playfield.
pub proof fn lemma_spawned_in_grid(kind: Tetromino)
    ensures
        spawned(kind).valid(),
        spawned(kind).in_grid(),
{
    spawned(kind).lemma_cells_near_centre();
}

} // verus!
