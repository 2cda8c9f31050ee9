//! Laws of the game, proved of its mathematical model.

use vstd::prelude::*;
use crate::cell::Cell;
use crate::engine::{
    lemma_rotated_wf, lemma_swept_bounds, lemma_swept_rows, swept_count, swept_grid,
};
use crate::game_action::GameAction;
use crate::state::{full_rows, no_full_row, row_full, Piece, StateView};
use crate::tetromino::Tetromino;
use crate::tetromino_collision::{dir_left, dir_right};
use crate::{GRID_HEIGHT, GRID_LENGTH, GRID_WIDTH};

verus! {

/// Every row and column of the playfield names one cell of it, and that
/// cell is either empty or full, never both.
pub proof fn lemma_playfield_total(state: StateView, i: int, j: int)
    requires
        state.representable(),
        0 <= i < GRID_HEIGHT,
        0 <= j < GRID_WIDTH,
    ensures
        0 <= i * GRID_WIDTH + j < state.grid.len(),
        (state.cell_at(i, j) == Cell::Empty) != (state.cell_at(i, j) == Cell::Full),
{
}

/// The cell in row `r` and column `j` of a playfield.
pub open spec fn cell_of(grid: Seq<Cell>, r: int, j: int) -> Cell {
    grid[r * GRID_WIDTH + j]
}

/// The row to which a sweep of the rows `0` to `n - 1` brings row `r`: as
/// many rows further down as there are full rows between row `r` and row
/// `n`.
pub open spec fn landing_row(grid: Seq<Cell>, n: int, r: int) -> int {
    r + full_rows(grid, n) - full_rows(grid, r + 1)
}

/// Between row `r` and row `n` there are at most as many full rows as
/// there are rows.
pub proof fn lemma_full_rows_between(grid: Seq<Cell>, r: int, n: int)
    requires
        0 <= r <= n,
    ensures
        0 <= full_rows(grid, n) - full_rows(grid, r) <= n - r,
    decreases n - r,
{
    if r < n {
        lemma_full_rows_between(grid, r, n - 1);
    }
}

/// A sweep packs the rows that are not full at the bottom, in their order,
/// under as many empty rows as it has removed: each row that was not full
/// stands, cell for cell, in its landing row, and the rows at the top, as
/// many as there were full rows, are empty.
pub proof fn lemma_sweep_packs_rows(grid: Seq<Cell>, n: int)
    requires
        grid.len() == GRID_LENGTH,
        0 <= n <= GRID_HEIGHT,
    ensures
        forall|r: int, j: int|
            0 <= r < n && !row_full(grid, r) && 0 <= j < GRID_WIDTH ==> cell_of(
                swept_grid(grid, n),
                landing_row(grid, n, r),
                j,
            ) == #[trigger] cell_of(grid, r, j),
        forall|r: int, j: int|
            0 <= r < full_rows(grid, n) && 0 <= j < GRID_WIDTH ==> #[trigger] cell_of(
                swept_grid(grid, n),
                r,
                j,
            ) == Cell::Empty,
    decreases n,
{
    if n > 0 {
        let before = swept_grid(grid, n - 1);
        let after = swept_grid(grid, n);
        lemma_sweep_packs_rows(grid, n - 1);
        lemma_swept_rows(grid, n - 1);
        lemma_full_rows_between(grid, 0, n - 1);
        assert(row_full(before, n - 1) == row_full(grid, n - 1)) by {
            assert forall|j: int| 0 <= j < GRID_WIDTH implies #[trigger] before[(n - 1)
                * GRID_WIDTH + j] == grid[(n - 1) * GRID_WIDTH + j] by {}
        }
        assert forall|r: int, j: int|
            0 <= r < n && !row_full(grid, r) && 0 <= j < GRID_WIDTH implies cell_of(
            after,
            landing_row(grid, n, r),
            j,
        ) == #[trigger] cell_of(grid, r, j) by {
            if r < n - 1 {
                lemma_full_rows_between(grid, r + 1, n - 1);
                let from = landing_row(grid, n - 1, r);
                assert(cell_of(before, from, j) == cell_of(grid, r, j));
                assert(0 <= from <= n - 2);
                if row_full(grid, n - 1) {
                    assert(landing_row(grid, n, r) == from + 1);
                    assert(after[(from + 1) * GRID_WIDTH + j] == before[(from + 1) * GRID_WIDTH + j
                        - GRID_WIDTH]);
                }
            } else {
                assert(landing_row(grid, n, r) == r);
                assert(after == before);
                assert(before[r * GRID_WIDTH + j] == grid[r * GRID_WIDTH + j]);
            }
        }
        assert forall|r: int, j: int|
            0 <= r < full_rows(grid, n) && 0 <= j < GRID_WIDTH implies #[trigger] cell_of(
            after,
            r,
            j,
        ) == Cell::Empty by {
            if row_full(grid, n - 1) {
                if r > 0 {
                    assert(cell_of(before, r - 1, j) == Cell::Empty);
                    assert(after[r * GRID_WIDTH + j] == before[r * GRID_WIDTH + j - GRID_WIDTH]);
                }
            } else {
                assert(cell_of(before, r, j) == Cell::Empty);
            }
        }
    }
}

/// A sweep of a playfield without a full row removes nothing.
pub proof fn lemma_sweep_without_full_row(grid: Seq<Cell>, n: int)
    requires
        0 <= n,
        no_full_row(grid, n),
    ensures
        swept_grid(grid, n) == grid,
        swept_count(grid, n) == 0,
    decreases n,
{
    if n > 0 {
        lemma_sweep_without_full_row(grid, n - 1);
        assert(!row_full(grid, n - 1));
    }
}

/// After a sweep no row of the playfield is full, and the sweep has counted
/// as many lines as there were full rows.
pub proof fn lemma_sweep_leaves_no_full_row(state: StateView)
    requires
        state.grid.len() == GRID_LENGTH,
    ensures
        no_full_row(state.swept().grid, GRID_HEIGHT as int),
        state.swept().lines == state.lines + full_rows(state.grid, GRID_HEIGHT as int),
{
    lemma_swept_rows(state.grid, GRID_HEIGHT as int);
}

/// A second sweep right after a sweep changes nothing: neither the
/// playfield nor the lines, the score or the level.
pub proof fn lemma_sweep_idempotent(state: StateView)
    requires
        state.grid.len() == GRID_LENGTH,
    ensures
        state.swept().swept() == state.swept(),
{
    lemma_swept_rows(state.grid, GRID_HEIGHT as int);
    lemma_sweep_without_full_row(state.swept().grid, GRID_HEIGHT as int);
    assert(state.swept().lines + 0 == state.swept().lines);
}

/// A tick never lowers the number of cleared lines.
pub proof fn lemma_tick_keeps_lines(state: StateView, fresh: Tetromino)
    ensures
        state.ticked(fresh).lines >= state.lines,
{
    lemma_swept_bounds(state.fallen(fresh).grid, GRID_HEIGHT as int, GRID_HEIGHT as int);
}

/// A command changes neither the level nor the lines nor the score.
pub proof fn lemma_command_keeps_counters(state: StateView, action: GameAction, fresh: Tetromino)
    ensures
        state.performed(action, fresh).level == state.level,
        state.performed(action, fresh).lines == state.lines,
        state.performed(action, fresh).score == state.score,
        state.performed(action, fresh).clock == state.clock,
{
}

/// A tick never lowers the level, raises it by one at most, and raises it
/// only where the cleared lines have passed a multiple of ten. A level of
/// at least one stays so.
pub proof fn lemma_level_rises_at_thresholds(state: StateView, fresh: Tetromino)
    ensures
        state.ticked(fresh).level == state.level || (state.ticked(fresh).level == state.level + 1
            && state.lines / 10 < state.ticked(fresh).lines / 10),
        state.level >= 1 ==> state.ticked(fresh).level >= 1,
{
}

/// The rotation of the piece was made, not refused.
pub open spec fn rotation_made(state: StateView) -> bool {
    state.rotated().piece.rotation == (state.piece.rotation + 1) % 4
}

/// The piece `after` is what a rotation makes of the piece `before`: the
/// same kind in the next rotation, one column further right only where the
/// turned piece sticks out to the left, one column further left only where
/// it sticks out to the right, and one row further up only where it sticks
/// out below.
pub open spec fn turn_of(before: Piece, after: Piece) -> bool {
    &&& after.kind == before.kind
    &&& after.rotation == before.turned().rotation
    &&& (after.col == before.col || (after.col == before.col + 1 && before.turned().clips_left())
        || (after.col == before.col - 1 && before.turned().clips_right()
        && !before.turned().clips_left()))
    &&& (after.row == before.row || (after.row == before.row - 1
        && before.turned().clips_bottom()))
}

/// Where a piece on the playfield has been turned onto the playfield, its
/// next turn sticks out on neither side, and lies on the playfield once it
/// has been moved up where it sticks out below.
pub proof fn lemma_turn_after_turn(before: Piece, after: Piece)
    requires
        before.valid(),
        before.in_grid(),
        after.valid(),
        after.in_grid(),
        turn_of(before, after),
    ensures
        !after.turned().clips_left(),
        !after.turned().clips_right(),
        after.turned().clips_bottom() ==> after.turned().shifted((-1, 0)).in_grid(),
        !after.turned().clips_bottom() ==> after.turned().in_grid(),
{
}

/// What a rotation does to a steady game: it stays steady; only the piece
/// changes; a rotation that is refused changes nothing; and a rotation that
/// is made turns the piece as `turn_of` says.
pub proof fn lemma_rotation_step(state: StateView)
    requires
        state.wf(),
    ensures
        state.rotated().wf(),
        state.rotated() == (StateView { piece: state.rotated().piece, ..state }),
        !rotation_made(state) ==> state.rotated() == state,
        rotation_made(state) ==> turn_of(state.piece, state.rotated().piece),
{
    lemma_rotated_wf(state);
}

/// After a rotation that was made, the next rotation is made too.
pub proof fn lemma_next_rotation_made(state: StateView)
    requires
        state.wf(),
        rotation_made(state),
    ensures
        rotation_made(state.rotated()),
{
    lemma_rotation_step(state);
    lemma_turn_after_turn(state.piece, state.rotated().piece);
}

/// Four rotations in a row bring the piece back to the rotation it had.
/// The kind of the piece and everything but its place stay as they were.
pub proof fn lemma_four_rotations(state: StateView)
    requires
        state.wf(),
    ensures
        state.rotated().rotated().rotated().rotated().piece.rotation == state.piece.rotation,
        state.rotated().rotated().rotated().rotated().piece.kind == state.piece.kind,
        state.rotated().rotated().rotated().rotated() == (StateView {
            piece: state.rotated().rotated().rotated().rotated().piece,
            ..state
        }),
{
    let first = state.rotated();
    let second = first.rotated();
    let third = second.rotated();
    lemma_rotation_step(state);
    lemma_rotation_step(first);
    lemma_rotation_step(second);
    lemma_rotation_step(third);
    if rotation_made(state) {
        lemma_next_rotation_made(state);
        lemma_next_rotation_made(first);
        lemma_next_rotation_made(second);
    }
}

/// A move to the left and then a move to the right, where both are made,
/// bring the piece back to where it was and leave the game as it was.
pub proof fn lemma_left_then_right(state: StateView)
    requires
        state.can_move(dir_left()),
        state.moved(dir_left()).can_move(dir_right()),
    ensures
        state.moved(dir_left()).moved(dir_right()).piece == state.piece,
        state.moved(dir_left()).moved(dir_right()) == state,
{
}

} // verus!
