use tetris::cell::Cell;
use tetris::engine::{increment_clock_and_trigger_events, perform_action};
use tetris::game_action::GameAction;
use tetris::state::State;
use tetris::tetromino::Tetromino;
use tetris::{GRID_HEIGHT, GRID_WIDTH};

fn game_with(kind: Tetromino) -> State {
    let mut state = State::new();
    state.set_new_current_tetromino(kind);
    state
}

fn repeat(state: &mut State, action: GameAction, times: usize) {
    for _ in 0..times {
        perform_action(state, action);
    }
}

fn tick(state: &mut State, times: usize) {
    for _ in 0..times {
        increment_clock_and_trigger_events(state);
    }
}

fn fill_row_but_first_column(state: &mut State, row: usize) {
    for j in 1..GRID_WIDTH {
        state.set_grid_cell(row, j, Cell::Full);
    }
}

fn row_is_empty(state: &State, row: usize) -> bool {
    (0..GRID_WIDTH).all(|j| state.get_grid_cell(row, j) == Cell::Empty)
}

#[test]
fn new_game_starts_empty() {
    let state = State::new();
    for i in 0..GRID_HEIGHT {
        assert!(row_is_empty(&state, i));
    }
    let position = state.get_current_tetromino_position();
    assert_eq!((position.i, position.j), (1, 4));
    assert_eq!(state.get_current_tetromino_rotation(), 0);
    assert_eq!(state.get_stored_tetromino(), None);
    assert!(state.can_store());
    assert_eq!(state.get_score(), 0);
    assert_eq!(state.get_level(), 1);
    assert_eq!(state.get_lines(), 0);
    assert_eq!(state.get_clock(), 0);
    assert!(!state.is_game_paused());
}

#[test]
fn new_game_from_samples() {
    let state = State::from_samples(rand::rng(), 7, 15, 2, 13);
    assert_eq!(state.get_current_tetromino(), Tetromino::I);
    assert_eq!(state.get_in_next_tetromino_queue(0), Tetromino::O);
    assert_eq!(state.get_in_next_tetromino_queue(1), Tetromino::T);
    assert_eq!(state.get_in_next_tetromino_queue(2), Tetromino::Z);
    assert_eq!(state.get_level(), 1);
}

#[test]
fn spawn_and_fall() {
    let mut state = State::new();
    tick(&mut state, 74);
    assert_eq!(state.get_current_tetromino_position().i, 1);
    assert_eq!(state.get_clock(), 74);
    tick(&mut state, 1);
    assert_eq!(state.get_current_tetromino_position().i, 2);
    assert_eq!(state.get_current_tetromino_position().j, 4);
    tick(&mut state, 5);
    assert_eq!(state.get_clock(), 80);
    assert_eq!(state.get_current_tetromino_position().i, 2);
    tick(&mut state, 70);
    assert_eq!(state.get_current_tetromino_position().i, 3);
}

#[test]
fn left_wall() {
    let mut state = game_with(Tetromino::J);
    repeat(&mut state, GameAction::Left, 4);
    let position = state.get_current_tetromino_position();
    assert_eq!((position.i, position.j), (1, 1));
    let cells = state.get_current_tetromino_ref().get_cells_coords();
    let leftmost = cells.0.j.min(cells.1.j).min(cells.2.j).min(cells.3.j);
    assert_eq!(leftmost, 0);
    repeat(&mut state, GameAction::Left, 1);
    let position = state.get_current_tetromino_position();
    assert_eq!((position.i, position.j), (1, 1));
}

#[test]
fn right_wall() {
    let mut state = game_with(Tetromino::I);
    repeat(&mut state, GameAction::Right, 3);
    assert_eq!(state.get_current_tetromino_position().j, 7);
    repeat(&mut state, GameAction::Right, 1);
    assert_eq!(state.get_current_tetromino_position().j, 7);
}

#[test]
fn single_clear() {
    let mut state = game_with(Tetromino::I);
    repeat(&mut state, GameAction::Down, 18);
    repeat(&mut state, GameAction::Left, 3);
    let position = state.get_current_tetromino_position();
    assert_eq!((position.i, position.j), (19, 1));
    fill_row_but_first_column(&mut state, 19);
    assert!(!state.is_grid_line_full(19));

    repeat(&mut state, GameAction::Down, 1);
    assert!(state.is_grid_line_full(19));
    assert_eq!(state.get_lines(), 0);

    tick(&mut state, 10);
    assert!(row_is_empty(&state, 19));
    assert_eq!(state.get_lines(), 1);
    assert_eq!(state.get_score(), 10);
    assert_eq!(state.get_level(), 1);
}

#[test]
fn tetris() {
    let mut state = game_with(Tetromino::I);
    repeat(&mut state, GameAction::Rotate, 1);
    assert_eq!(state.get_current_tetromino_rotation(), 1);
    repeat(&mut state, GameAction::Left, 4);
    assert_eq!(state.get_current_tetromino_position().j, 0);
    for row in 16..20 {
        fill_row_but_first_column(&mut state, row);
    }
    repeat(&mut state, GameAction::Down, 16);
    assert_eq!(state.get_current_tetromino_position().i, 17);
    let queue_head = state.get_in_next_tetromino_queue(0);
    repeat(&mut state, GameAction::Down, 1);
    assert_eq!(state.get_current_tetromino(), queue_head);
    for row in 16..20 {
        assert!(state.is_grid_line_full(row));
    }

    tick(&mut state, 10);
    for row in 0..GRID_HEIGHT {
        assert!(row_is_empty(&state, row));
    }
    assert_eq!(state.get_lines(), 4);
    assert_eq!(state.get_score(), 80);
    assert_eq!(state.get_level(), 1);
}

#[test]
fn hold_swap() {
    let mut state = game_with(Tetromino::T);
    let queue_head = state.get_in_next_tetromino_queue(0);
    let second = state.get_in_next_tetromino_queue(1);
    let third = state.get_in_next_tetromino_queue(2);

    perform_action(&mut state, GameAction::Store);
    assert_eq!(state.get_stored_tetromino(), Some(Tetromino::T));
    assert_eq!(state.get_current_tetromino(), queue_head);
    assert_eq!(state.get_in_next_tetromino_queue(0), second);
    assert_eq!(state.get_in_next_tetromino_queue(1), third);
    assert!(!state.can_store());
    let position = state.get_current_tetromino_position();
    assert_eq!((position.i, position.j), (1, 4));

    let head_after = state.get_in_next_tetromino_queue(0);
    perform_action(&mut state, GameAction::Store);
    assert_eq!(state.get_stored_tetromino(), Some(Tetromino::T));
    assert_eq!(state.get_current_tetromino(), queue_head);
    assert_eq!(state.get_in_next_tetromino_queue(0), head_after);
    assert!(!state.can_store());

    repeat(&mut state, GameAction::Down, 30);
    assert!(state.can_store());
}

#[test]
fn hold_swap_with_full_slot() {
    let mut state = game_with(Tetromino::S);
    state.set_stored_tetromino(Some(Tetromino::L));
    let queue_head = state.get_in_next_tetromino_queue(0);
    repeat(&mut state, GameAction::Down, 3);
    repeat(&mut state, GameAction::Rotate, 1);

    perform_action(&mut state, GameAction::Store);
    assert_eq!(state.get_stored_tetromino(), Some(Tetromino::S));
    assert_eq!(state.get_current_tetromino(), Tetromino::L);
    assert_eq!(state.get_in_next_tetromino_queue(0), queue_head);
    let position = state.get_current_tetromino_position();
    assert_eq!((position.i, position.j), (1, 4));
    assert_eq!(state.get_current_tetromino_rotation(), 0);
    assert!(!state.can_store());
}

#[test]
fn rotation_wall_kick() {
    let mut state = game_with(Tetromino::I);
    repeat(&mut state, GameAction::Down, 4);
    for _ in 0..5 {
        state.get_current_tetromino_mutref().move_right();
    }
    let position = state.get_current_tetromino_position();
    assert_eq!((position.i, position.j), (5, 9));
    assert!(!state.get_current_tetromino_ref().is_inside_grid());

    state.rotate_current_tetromino();
    assert_eq!(state.get_current_tetromino_rotation(), 1);
    assert!(state.get_current_tetromino_ref().is_inside_grid());
    let cells = state.get_current_tetromino_ref().get_cells_coords();
    let rightmost = cells.0.j.max(cells.1.j).max(cells.2.j).max(cells.3.j);
    assert!(rightmost < GRID_WIDTH);
}

#[test]
fn rotation_kicks_off_left_wall() {
    let mut state = game_with(Tetromino::T);
    repeat(&mut state, GameAction::Rotate, 1);
    repeat(&mut state, GameAction::Left, 9);
    assert_eq!(state.get_current_tetromino_position().j, 0);
    repeat(&mut state, GameAction::Rotate, 1);
    assert_eq!(state.get_current_tetromino_rotation(), 2);
    assert_eq!(state.get_current_tetromino_position().j, 1);
}

#[test]
fn rotation_kicks_off_right_wall() {
    let mut state = game_with(Tetromino::T);
    repeat(&mut state, GameAction::Rotate, 3);
    repeat(&mut state, GameAction::Right, 9);
    assert_eq!(state.get_current_tetromino_position().j, 9);
    repeat(&mut state, GameAction::Rotate, 1);
    assert_eq!(state.get_current_tetromino_rotation(), 0);
    assert_eq!(state.get_current_tetromino_position().j, 8);
}

#[test]
fn rotation_lifts_off_the_floor() {
    let mut state = game_with(Tetromino::I);
    repeat(&mut state, GameAction::Down, 17);
    assert_eq!(state.get_current_tetromino_position().i, 18);
    repeat(&mut state, GameAction::Rotate, 1);
    assert_eq!(state.get_current_tetromino_rotation(), 1);
    assert_eq!(state.get_current_tetromino_position().i, 17);
}

#[test]
fn rotation_that_cannot_be_kicked_back_is_refused() {
    let mut state = game_with(Tetromino::I);
    repeat(&mut state, GameAction::Rotate, 1);
    repeat(&mut state, GameAction::Right, 9);
    assert_eq!(state.get_current_tetromino_position().j, 9);
    repeat(&mut state, GameAction::Rotate, 1);
    assert_eq!(state.get_current_tetromino_rotation(), 1);
    assert_eq!(state.get_current_tetromino_position().j, 9);
    assert!(state.get_current_tetromino_ref().is_inside_grid());

    let mut lying = game_with(Tetromino::I);
    repeat(&mut lying, GameAction::Down, 18);
    assert_eq!(lying.get_current_tetromino_position().i, 19);
    repeat(&mut lying, GameAction::Rotate, 1);
    assert_eq!(lying.get_current_tetromino_rotation(), 0);
    assert_eq!(lying.get_current_tetromino_position().i, 19);
}

#[test]
fn move_into_full_cell_is_refused() {
    let mut state = game_with(Tetromino::O);
    state.set_grid_cell(1, 3, Cell::Full);
    repeat(&mut state, GameAction::Left, 1);
    assert_eq!(state.get_current_tetromino_position().j, 4);
    state.set_grid_cell(0, 6, Cell::Full);
    repeat(&mut state, GameAction::Right, 1);
    assert_eq!(state.get_current_tetromino_position().j, 4);
}

#[test]
fn piece_locks_on_full_cell() {
    let mut state = game_with(Tetromino::O);
    state.set_grid_cell(3, 5, Cell::Full);
    repeat(&mut state, GameAction::Down, 1);
    assert_eq!(state.get_current_tetromino_position().i, 2);
    assert_eq!(state.get_grid_cell(2, 4), Cell::Empty);
    let queue_head = state.get_in_next_tetromino_queue(0);
    repeat(&mut state, GameAction::Down, 1);
    assert_eq!(state.get_grid_cell(2, 4), Cell::Full);
    assert_eq!(state.get_grid_cell(1, 4), Cell::Full);
    assert_eq!(state.get_grid_cell(1, 5), Cell::Full);
    assert_eq!(state.get_grid_cell(2, 5), Cell::Full);
    assert_eq!(state.get_grid_cell(2, 3), Cell::Empty);
    assert_eq!(state.get_current_tetromino(), queue_head);
    let position = state.get_current_tetromino_position();
    assert_eq!((position.i, position.j), (1, 4));
}

#[test]
fn pause_suspends_commands_and_ticks() {
    let mut state = game_with(Tetromino::T);
    assert!(!perform_action(&mut state, GameAction::Pause));
    assert!(state.is_game_paused());
    repeat(&mut state, GameAction::Left, 2);
    repeat(&mut state, GameAction::Down, 2);
    repeat(&mut state, GameAction::Rotate, 1);
    repeat(&mut state, GameAction::Store, 1);
    let position = state.get_current_tetromino_position();
    assert_eq!((position.i, position.j), (1, 4));
    assert_eq!(state.get_current_tetromino_rotation(), 0);
    assert_eq!(state.get_stored_tetromino(), None);
    tick(&mut state, 100);
    assert_eq!(state.get_clock(), 0);
    assert_eq!(state.get_current_tetromino_position().i, 1);

    perform_action(&mut state, GameAction::Pause);
    assert!(!state.is_game_paused());
    repeat(&mut state, GameAction::Left, 1);
    assert_eq!(state.get_current_tetromino_position().j, 3);
}

#[test]
fn quit_is_signalled_and_changes_nothing() {
    let mut state = game_with(Tetromino::Z);
    assert!(perform_action(&mut state, GameAction::Quit));
    assert!(!perform_action(&mut state, GameAction::Left));
    assert_eq!(state.get_current_tetromino_position().j, 3);
    assert!(perform_action(&mut state, GameAction::Quit));
    assert_eq!(state.get_current_tetromino_position().j, 3);
    assert!(!state.is_game_paused());
}

#[test]
fn level_rises_after_ten_lines() {
    let mut state = game_with(Tetromino::O);
    let mut expected_score = 0;
    for sweep in 0..3 {
        for row in 16..20 {
            for j in 0..GRID_WIDTH {
                state.set_grid_cell(row, j, Cell::Full);
            }
        }
        let level = state.get_level();
        let cleared = state.clear_grid_lines_full();
        assert_eq!(cleared, 4);
        expected_score += 80 * level;
        assert_eq!(state.get_score(), expected_score);
        assert_eq!(state.get_lines(), 4 * (sweep + 1));
    }
    assert_eq!(state.get_lines(), 12);
    assert_eq!(state.get_level(), 2);
    assert_eq!(state.get_score(), 80 + 80 + 80);

    for j in 0..GRID_WIDTH {
        state.set_grid_cell(19, j, Cell::Full);
        state.set_grid_cell(18, j, Cell::Full);
    }
    assert_eq!(state.clear_grid_lines_full(), 2);
    assert_eq!(state.get_score(), 240 + 30 * 2);
    assert_eq!(state.get_level(), 2);
}

#[test]
fn gravity_quickens_with_the_level() {
    let mut state = game_with(Tetromino::O);
    state.increment_level();
    state.increment_level();
    assert_eq!(state.get_level(), 3);
    tick(&mut state, 64);
    assert_eq!(state.get_current_tetromino_position().i, 1);
    tick(&mut state, 1);
    assert_eq!(state.get_current_tetromino_position().i, 2);
}
