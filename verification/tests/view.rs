use tetris::cell::Cell;
use tetris::game_action::GameAction;
use tetris::state::State;
use tetris::tetromino::Tetromino;
use tetris::view::input::{action_for_key, Key};
use tetris::view::tetromino_sprite::{place_from, TetrominoSprite};
use tetris::view::vram::{
    clear_section, clear_section_line, digit_to_utf8, load_current_tetromino_sprite, load_grid,
    load_hold_section, load_next_section, load_state_data, load_tetromino_cell,
    load_tetromino_cell_grid, load_tetromino_sprite, load_uint,
};
use tetris::view::View;

fn text(view: &View, from: usize, to: usize) -> String {
    String::from_utf8(view.to_vec()[from..to].to_vec()).unwrap()
}

fn count_of(view: &View, character: u8) -> usize {
    view.to_vec().iter().filter(|c| **c == character).count()
}

#[test]
fn blank_frame() {
    let view = View::blank();
    let characters = view.to_vec();
    assert_eq!(characters.len(), 1516);
    assert!(characters.iter().all(|c| *c == b' '));
    assert_eq!(view.get_char(0), b' ');
    assert_eq!(view.get_char(1515), b' ');
}

#[test]
fn frame_from_template() {
    let view = View::from_template(b"ab\ncd\n\ne");
    assert_eq!(text(&view, 0, 12), "ab\n\rcd\n\r\n\re ");
    assert_eq!(view.to_vec().len(), 1516);
    assert!(view.to_vec()[11..].iter().all(|c| *c == b' '));

    let empty = View::from_template(b"");
    assert!(empty.to_vec().iter().all(|c| *c == b' '));
}

#[test]
fn frame_from_long_template() {
    let long = vec![b'x'; 3000];
    let view = View::from_template(&long);
    assert!(view.to_vec().iter().all(|c| *c == b'x'));

    let mut ends_with_feed = vec![b'y'; 1515];
    ends_with_feed.push(b'\n');
    ends_with_feed.push(b'z');
    let view = View::from_template(&ends_with_feed);
    assert_eq!(view.get_char(1514), b'y');
    assert_eq!(view.get_char(1515), b'\n');

    let feeds = vec![b'\n'; 1000];
    let view = View::from_template(&feeds);
    assert_eq!(view.get_char(1514), b'\n');
    assert_eq!(view.get_char(1515), b'\r');
}

#[test]
fn frame_mark_runs_through_the_capitals() {
    let mut view = View::from_template(b"#A#");
    view.advance_frame_mark();
    assert_eq!(text(&view, 0, 3), "#B#");
    for _ in 0..24 {
        view.advance_frame_mark();
    }
    assert_eq!(view.get_char(1), b'Z');
    view.advance_frame_mark();
    assert_eq!(view.get_char(1), b'A');
    let mut lower = View::from_template(b"#a#");
    lower.advance_frame_mark();
    assert_eq!(lower.get_char(1), b'A');
    let mut blank = View::blank();
    blank.advance_frame_mark();
    assert_eq!(blank.get_char(1), b'!');
}

#[test]
fn digits() {
    assert_eq!(digit_to_utf8(0), b'0');
    assert_eq!(digit_to_utf8(7), b'7');
    assert_eq!(digit_to_utf8(9), b'9');
}

#[test]
fn numbers_take_five_digits() {
    let mut view = View::blank();
    load_uint(&mut view, 1234, 100);
    assert_eq!(text(&view, 95, 102), " 01234 ");
    load_uint(&mut view, 987654, 100);
    assert_eq!(text(&view, 95, 102), " 87654 ");
    load_uint(&mut view, 0, 4);
    assert_eq!(text(&view, 0, 6), "00000 ");
    load_uint(&mut view, u32::MAX, 1515);
    assert_eq!(text(&view, 1510, 1516), " 67295");
}

#[test]
fn full_cell_takes_two_characters() {
    let mut view = View::blank();
    load_tetromino_cell(&mut view, 10);
    assert_eq!(text(&view, 9, 13), " HH ");
    load_tetromino_cell(&mut view, 1514);
    assert_eq!(text(&view, 1513, 1516), " HH");
    assert_eq!(count_of(&view, b'H'), 4);
}

#[test]
fn cells_of_the_playfield_in_the_frame() {
    let mut view = View::from_template(&vec![b'.'; 1516]);
    load_tetromino_cell_grid(&mut view, &Cell::Full, (0, 0));
    assert_eq!(text(&view, 91, 95), ".HH.");
    load_tetromino_cell_grid(&mut view, &Cell::Empty, (0, 1));
    assert_eq!(text(&view, 91, 97), ".HH  .");
    load_tetromino_cell_grid(&mut view, &Cell::Full, (19, 9));
    assert_eq!(text(&view, 1420, 1424), ".HH.");
    load_tetromino_cell_grid(&mut view, &Cell::Empty, (0, 0));
    assert_eq!(text(&view, 91, 97), ".    .");
}

#[test]
fn section_lines_are_blanked() {
    let mut view = View::from_template(&vec![b'H'; 1516]);
    clear_section_line(&mut view, 20);
    assert_eq!(text(&view, 19, 33), "H            H");
    assert_eq!(count_of(&view, b' '), 12);

    let mut other = View::from_template(b"aHbHcHdHeHfHgHhH");
    clear_section_line(&mut other, 2);
    assert_eq!(text(&other, 0, 16), "aHb c d e f g hH");
}

#[test]
fn sections_are_blanked() {
    let mut view = View::from_template(&vec![b'H'; 1516]);
    clear_section(&mut view, 140, 4);
    assert_eq!(count_of(&view, b' '), 48);
    for line in 0..4 {
        let start = 140 + line * 69;
        assert_eq!(text(&view, start - 1, start + 13), "H            H");
    }
    assert_eq!(view.get_char(140 + 4 * 69), b'H');
    clear_section(&mut view, 0, 0);
    assert_eq!(count_of(&view, b' '), 48);
}

#[test]
fn places_around_a_centre() {
    assert_eq!(place_from(282, 0, 0), Some(282));
    assert_eq!(place_from(282, -1, 0), Some(213));
    assert_eq!(place_from(282, 1, -1), Some(349));
    assert_eq!(place_from(282, 0, 2), Some(286));
    assert_eq!(place_from(0, 0, -1), None);
    assert_eq!(place_from(0, -1, 0), None);
    assert_eq!(place_from(1514, 0, 0), Some(1514));
    assert_eq!(place_from(1515, 0, 0), None);
    assert_eq!(place_from(1514, 0, 1), None);
    assert_eq!(place_from(usize::MAX, i32::MAX, i32::MAX), None);
    assert_eq!(place_from(usize::MAX, i32::MIN, i32::MIN), None);
}

#[test]
fn sprites_for_the_sections() {
    let sprite = TetrominoSprite::display_sprite(Tetromino::T, 282);
    assert_eq!(sprite.tetromino, Tetromino::T);
    assert_eq!(sprite.cells_screen_position, (Some(282), Some(213), Some(280), Some(284)));

    let sprite = TetrominoSprite::display_sprite(Tetromino::I, 330);
    assert_eq!(sprite.cells_screen_position, (Some(330), Some(328), Some(332), Some(334)));

    let sprite = TetrominoSprite::display_sprite(Tetromino::J, 606);
    assert_eq!(sprite.cells_screen_position, (Some(606), Some(535), Some(604), Some(608)));

    let sprite = TetrominoSprite::display_sprite(Tetromino::L, 882);
    assert_eq!(sprite.cells_screen_position, (Some(882), Some(815), Some(880), Some(884)));

    let sprite = TetrominoSprite::display_sprite(Tetromino::O, 1);
    assert_eq!(sprite.cells_screen_position, (Some(1), None, None, Some(3)));
}

#[test]
fn sprites_on_the_playfield() {
    let sprite = TetrominoSprite::current_tetromino(Tetromino::J, (1, 4), 0);
    assert_eq!(sprite.tetromino, Tetromino::J);
    assert_eq!(sprite.cells_screen_position, (Some(169), Some(100), Some(236), Some(238)));

    let sprite = TetrominoSprite::current_tetromino(Tetromino::I, (19, 9), 1);
    assert_eq!(sprite.cells_screen_position, (Some(1421), Some(1352), Some(1490), None));

    let mut state = State::new();
    state.set_new_current_tetromino(Tetromino::Z);
    state.move_current_tetromino_down();
    state.rotate_current_tetromino();
    let sprite = TetrominoSprite::of_current_tetromino(state.get_current_tetromino_ref());
    assert_eq!(sprite.tetromino, Tetromino::Z);
    assert_eq!(sprite.cells_screen_position, (Some(238), Some(171), Some(240), Some(307)));

    assert_eq!(
        TetrominoSprite::get_grid_cells_from_shape((0, 0), [(-1, 0), (0, -1), (2, 3)]),
        (Some(92), Some(23), Some(90), Some(236))
    );
    assert_eq!(
        TetrominoSprite::get_screen_cells_from_shape(0, [(-1, 0), (0, -1), (0, 1)]),
        (Some(0), None, None, Some(2))
    );
    assert_eq!(TetrominoSprite::get_shape(Tetromino::S, 3), [(-1, 0), (1, 0), (1, 1)]);
    assert_eq!(TetrominoSprite::get_display_shape(Tetromino::T), [(-1, 0), (0, -1), (0, 1)]);
}

#[test]
fn sprite_in_the_frame() {
    let mut view = View::blank();
    let sprite = TetrominoSprite {
        tetromino: Tetromino::O,
        cells_screen_position: (Some(200), None, Some(131), Some(202)),
    };
    load_tetromino_sprite(&mut view, sprite);
    assert_eq!(text(&view, 199, 205), " HHHH ");
    assert_eq!(text(&view, 130, 134), " HH ");
    assert_eq!(count_of(&view, b'H'), 6);
}

#[test]
fn playfield_in_the_frame() {
    let mut state = State::new();
    state.set_grid_cell(0, 0, Cell::Full);
    state.set_grid_cell(19, 9, Cell::Full);
    state.set_grid_cell(7, 3, Cell::Full);
    let mut view = View::from_template(&vec![b'H'; 1516]);
    load_grid(&state, &mut view);
    assert_eq!(count_of(&view, b' '), 2 * 197);
    assert_eq!(text(&view, 91, 113), "HHH                  H");
    assert_eq!(text(&view, 92 + 7 * 69, 92 + 7 * 69 + 20), "      HH            ");
    assert_eq!(text(&view, 1403, 1424), "                  HHH");
}

#[test]
fn falling_piece_in_the_frame() {
    let mut state = State::new();
    state.set_new_current_tetromino(Tetromino::T);
    let mut view = View::blank();
    load_current_tetromino_sprite(&mut view, state.get_current_tetromino_ref());
    assert_eq!(count_of(&view, b'H'), 8);
    assert_eq!(text(&view, 166, 174), " HHHHHH ");
    assert_eq!(text(&view, 237, 241), " HH ");
}

#[test]
fn hold_section_in_the_frame() {
    let mut state = State::new();
    let mut view = View::blank();
    load_tetromino_cell(&mut view, 142);
    load_hold_section(&mut view, &state);
    assert_eq!(count_of(&view, b'H'), 0);

    state.set_stored_tetromino(Some(Tetromino::I));
    load_hold_section(&mut view, &state);
    assert_eq!(count_of(&view, b'H'), 8);
    assert_eq!(text(&view, 279, 289), " HHHHHHHH ");

    state.set_stored_tetromino(Some(Tetromino::O));
    load_hold_section(&mut view, &state);
    assert_eq!(count_of(&view, b'H'), 8);
    assert_eq!(text(&view, 281, 287), " HHHH ");
    assert_eq!(text(&view, 212, 218), " HHHH ");
}

#[test]
fn next_section_in_the_frame() {
    let state = State::from_samples(rand::rng(), 3, 0, 1, 2);
    let mut view = View::blank();
    load_next_section(&mut view, &state);
    assert_eq!(count_of(&view, b'H'), 24);
    assert_eq!(text(&view, 327, 337), " HHHHHHHH ");
    assert_eq!(text(&view, 605, 611), " HHHH ");
    assert_eq!(text(&view, 536, 542), " HHHH ");
    assert_eq!(text(&view, 879, 887), " HHHHHH ");
    assert_eq!(text(&view, 812, 816), " HH ");
}

#[test]
fn whole_game_in_the_frame() {
    let mut state = State::from_samples(rand::rng(), 1, 0, 0, 0);
    state.add_to_score(4321);
    state.increment_level();
    state.set_grid_cell(19, 0, Cell::Full);
    let mut view = View::blank();
    load_state_data(&state, &mut view);
    assert_eq!(text(&view, 1160, 1165), "04321");
    assert_eq!(text(&view, 1298, 1303), "00002");
    assert_eq!(text(&view, 1436, 1441), "00000");
    assert_eq!(text(&view, 92 + 19 * 69, 92 + 19 * 69 + 4), "HH  ");
    assert_eq!(text(&view, 168, 174), " HHHH ");
    assert_eq!(text(&view, 99, 105), " HHHH ");
    assert_eq!(count_of(&view, b'H'), 2 + 8 + 24);

    let once = view.to_vec();
    load_state_data(&state, &mut view);
    assert_eq!(view.to_vec(), once);
}

#[test]
fn key_bindings() {
    assert_eq!(action_for_key(Key::Left, true), Some(GameAction::Left));
    assert_eq!(action_for_key(Key::Right, true), Some(GameAction::Right));
    assert_eq!(action_for_key(Key::Down, true), Some(GameAction::Down));
    assert_eq!(action_for_key(Key::Char('r'), true), Some(GameAction::Rotate));
    assert_eq!(action_for_key(Key::Char('s'), true), Some(GameAction::Store));
    assert_eq!(action_for_key(Key::Char('p'), true), Some(GameAction::Pause));
    assert_eq!(action_for_key(Key::Char('q'), true), Some(GameAction::Quit));
    assert_eq!(action_for_key(Key::Char('R'), true), None);
    assert_eq!(action_for_key(Key::Char('x'), true), None);
    assert_eq!(action_for_key(Key::Other, true), None);
    assert_eq!(action_for_key(Key::Left, false), None);
    assert_eq!(action_for_key(Key::Char('q'), false), None);
}

#[test]
fn steady_games() {
    let mut state = State::new();
    assert!(state.is_steady());
    state.set_new_current_tetromino(Tetromino::T);
    for _ in 0..4 {
        state.get_current_tetromino_mutref().move_left();
    }
    assert!(!state.is_steady());
    state.get_current_tetromino_mutref().move_right();
    assert!(state.is_steady());
}
