use tetris_engine::board::TetrisBoard;
use tetris_engine::grid::CellLook;
use tetris_engine::piece::TetrisPieceType;

fn occupied(board: &TetrisBoard) -> Vec<i64> {
    (-40..(board.width() * board.rows()) as i64 + 40)
        .filter(|i| board.check_loc_for_falling_piece(*i))
        .collect()
}

fn shadow(board: &TetrisBoard) -> Vec<i64> {
    (-40..(board.width() * board.rows()) as i64 + 40)
        .filter(|i| board.check_drop_loc(*i))
        .collect()
}

fn settled(board: &TetrisBoard) -> Vec<i64> {
    (0..(board.width() * board.rows()) as i64).filter(|i| board.tile(*i).is_some()).collect()
}

/// Four rows of two flat I pieces each in the columns 1 to 8, and an upright
/// I piece let down into the well of column 0.
fn upright_i_in_a_well() -> TetrisBoard {
    let mut board = TetrisBoard::make(10, 20, TetrisPieceType::I);
    for _ in 0..4 {
        board.move_left();
        board.move_left();
        board.drop();
        assert!(board.new_falling_piece(TetrisPieceType::I));
        board.move_right();
        board.move_right();
        board.drop();
        assert!(board.new_falling_piece(TetrisPieceType::I));
    }
    board.rotate_clockwise();
    for _ in 0..5 {
        board.move_left();
    }
    while board.move_down() {}
    board
}

/// The bottom row full but for its last column, with upright I pieces in
/// the columns 8 and, falling, 9.
fn bottom_row_short_of_one() -> TetrisBoard {
    let mut board = TetrisBoard::make(10, 20, TetrisPieceType::I);
    for _ in 0..3 {
        board.move_left();
    }
    assert_eq!(board.drop(), 21);
    assert!(board.new_falling_piece(TetrisPieceType::I));
    board.move_right();
    assert_eq!(board.drop(), 21);
    assert!(board.new_falling_piece(TetrisPieceType::I));
    board.rotate_clockwise();
    for _ in 0..3 {
        board.move_right();
    }
    assert_eq!(board.drop(), 19);
    assert!(board.new_falling_piece(TetrisPieceType::I));
    board.rotate_clockwise();
    for _ in 0..4 {
        board.move_right();
    }
    board
}

#[test]
fn dimensions_that_a_board_can_have() {
    assert!(TetrisBoard::valid_dimensions(10, 20));
    assert!(TetrisBoard::valid_dimensions(4, 1));
    assert!(!TetrisBoard::valid_dimensions(3, 20));
    assert!(!TetrisBoard::valid_dimensions(10, 0));
    assert!(TetrisBoard::valid_dimensions(1 << 20, 1021));
    assert!(!TetrisBoard::valid_dimensions(1 << 20, 1022));
    assert!(!TetrisBoard::valid_dimensions(usize::MAX, usize::MAX));
}

#[test]
fn new_board_is_empty() {
    let board = TetrisBoard::make(10, 20, TetrisPieceType::T);
    assert_eq!(board.width(), 10);
    assert_eq!(board.rows(), 23);
    assert!(settled(&board).is_empty());
    assert_eq!(board.falling_piece(), TetrisPieceType::T);
    assert_eq!(board.falling_loc(), 193);
    assert_eq!(board.falling_rot(), 0);
}

#[test]
fn i_piece_spawns_on_the_documented_cells() {
    let board = TetrisBoard::make(10, 20, TetrisPieceType::I);
    assert_eq!(board.falling_loc(), 193);
    assert_eq!(board.falling_rot(), 0);
    assert_eq!(occupied(&board), vec![213, 214, 215, 216]);
    assert!(board.check_in_bounds());
    assert!(!board.check_overlap());
}

#[test]
fn other_pieces_spawn_in_the_same_box() {
    let mut board = TetrisBoard::make(10, 20, TetrisPieceType::I);
    assert!(board.new_falling_piece(TetrisPieceType::T));
    assert_eq!(occupied(&board), vec![203, 204, 205, 214]);
    assert!(board.new_falling_piece(TetrisPieceType::O));
    assert_eq!(occupied(&board), vec![194, 195, 204, 205]);
    assert!(board.new_falling_piece(TetrisPieceType::Z));
    assert_eq!(occupied(&board), vec![204, 205, 213, 214]);
}

#[test]
fn spawn_cell_follows_the_size_of_the_board() {
    let board = TetrisBoard::make(4, 1, TetrisPieceType::I);
    assert_eq!(board.falling_loc(), 0);
    assert_eq!(occupied(&board), vec![8, 9, 10, 11]);
    let board = TetrisBoard::make(7, 5, TetrisPieceType::O);
    assert_eq!(board.falling_loc(), 29);
    assert_eq!(occupied(&board), vec![30, 31, 37, 38]);
}

#[test]
fn shadow_of_a_new_piece_lies_on_the_floor() {
    let board = TetrisBoard::make(10, 20, TetrisPieceType::T);
    assert_eq!(board.drop_loc(), -7);
    assert_eq!(shadow(&board), vec![3, 4, 5, 14]);
    let board = TetrisBoard::make(10, 20, TetrisPieceType::I);
    assert_eq!(board.drop_loc(), -17);
    assert_eq!(shadow(&board), vec![3, 4, 5, 6]);
}

#[test]
fn collision_is_outside_the_grid_or_on_a_settled_cell() {
    let mut board = TetrisBoard::make(10, 20, TetrisPieceType::O);
    assert!(board.collision_at(-1));
    assert!(board.collision_at(230));
    assert!(board.collision_at(i64::MAX));
    assert!(board.collision_at(i64::MIN));
    assert!(!board.collision_at(0));
    assert!(!board.collision_at(229));
    board.drop();
    assert!(board.collision_at(4));
    assert!(board.collision_at(15));
    assert!(!board.collision_at(3));
    assert_eq!(board.tile(4), Some(TetrisPieceType::O));
    assert_eq!(board.tile(3), None);
    assert_eq!(board.tile(-1), None);
    assert_eq!(board.tile(230), None);
}

#[test]
fn step_down_moves_one_row() {
    let mut board = TetrisBoard::make(10, 20, TetrisPieceType::T);
    assert!(board.move_down());
    assert_eq!(board.falling_loc(), 183);
    assert_eq!(board.falling_rot(), 0);
    assert_eq!(board.drop_loc(), -7);
}

#[test]
fn step_down_stops_on_the_floor() {
    let mut board = TetrisBoard::make(10, 20, TetrisPieceType::T);
    let mut steps = 0;
    while board.move_down() {
        steps += 1;
    }
    assert_eq!(steps, 20);
    assert_eq!(board.falling_loc(), -7);
    assert!(!board.move_down());
    assert_eq!(board.falling_loc(), -7);
    assert_eq!(board.row(), -1);
    assert!(board.check_in_bounds());
}

#[test]
fn i_piece_moves_left_to_the_wall() {
    let mut board = TetrisBoard::make(10, 20, TetrisPieceType::I);
    for expected in [192, 191, 190, 190, 190] {
        board.move_left();
        assert_eq!(board.falling_loc(), expected);
    }
    assert_eq!(board.drop_loc(), -20);
}

#[test]
fn i_piece_moves_right_to_the_wall() {
    let mut board = TetrisBoard::make(10, 20, TetrisPieceType::I);
    for expected in [194, 195, 196, 196, 196] {
        board.move_right();
        assert_eq!(board.falling_loc(), expected);
    }
    assert_eq!(board.drop_loc(), -14);
}

#[test]
fn upright_i_piece_does_not_wrap_around_the_right_wall() {
    let mut board = TetrisBoard::make(10, 20, TetrisPieceType::I);
    board.rotate_clockwise();
    assert_eq!(board.falling_rot(), 1);
    for expected in [194, 195, 196, 197, 197, 197] {
        board.move_right();
        assert_eq!(board.falling_loc(), expected);
    }
    assert_eq!(occupied(&board), vec![199, 209, 219, 229]);
}

#[test]
fn upright_i_piece_does_not_wrap_around_the_left_wall() {
    let mut board = TetrisBoard::make(10, 20, TetrisPieceType::I);
    board.rotate_clockwise();
    for expected in [192, 191, 190, 189, 188, 188, 188] {
        board.move_left();
        assert_eq!(board.falling_loc(), expected);
    }
    assert_eq!(occupied(&board), vec![190, 200, 210, 220]);
    assert_eq!(board.row(), 18);
    assert!(board.check_in_bounds());
}

#[test]
fn t_piece_stops_at_both_walls() {
    let mut board = TetrisBoard::make(10, 20, TetrisPieceType::T);
    for _ in 0..6 {
        board.move_left();
    }
    assert_eq!(board.falling_loc(), 190);
    for _ in 0..12 {
        board.move_right();
    }
    assert_eq!(board.falling_loc(), 197);
    assert_eq!(occupied(&board), vec![207, 208, 209, 218]);
}

#[test]
fn rotation_in_free_space_keeps_the_place() {
    let mut board = TetrisBoard::make(10, 20, TetrisPieceType::T);
    board.rotate_clockwise();
    assert_eq!((board.falling_loc(), board.falling_rot()), (193, 1));
    assert_eq!(occupied(&board), vec![194, 204, 205, 214]);
}

#[test]
fn four_rotations_come_back() {
    for piece in [
        TetrisPieceType::I,
        TetrisPieceType::J,
        TetrisPieceType::L,
        TetrisPieceType::O,
        TetrisPieceType::S,
        TetrisPieceType::T,
        TetrisPieceType::Z,
    ] {
        let mut board = TetrisBoard::make(10, 20, piece);
        for _ in 0..5 {
            board.move_down();
        }
        let before = (board.falling_loc(), board.falling_rot(), occupied(&board));
        for turn in 1..=4 {
            board.rotate_clockwise();
            assert_eq!(board.falling_rot(), turn % 4);
            assert_eq!(board.falling_loc(), before.0);
        }
        assert_eq!((board.falling_loc(), board.falling_rot(), occupied(&board)), before);
    }
}

#[test]
fn rotation_at_the_left_wall_takes_a_kick() {
    let mut board = TetrisBoard::make(10, 20, TetrisPieceType::I);
    board.rotate_clockwise();
    for _ in 0..5 {
        board.move_left();
    }
    assert_eq!((board.falling_loc(), board.falling_rot()), (188, 1));
    board.rotate_clockwise();
    assert_eq!((board.falling_loc(), board.falling_rot()), (190, 2));
    assert_eq!(occupied(&board), vec![200, 201, 202, 203]);
    assert!(board.check_in_bounds());
    assert!(!board.check_overlap());
    assert_eq!(board.drop_loc(), -10);
}

#[test]
fn rotation_without_room_changes_nothing() {
    let mut board = upright_i_in_a_well();
    assert_eq!((board.falling_loc(), board.falling_rot()), (-2, 1));
    assert_eq!(occupied(&board), vec![0, 10, 20, 30]);
    assert_eq!(board.row(), 0);
    let tiles = settled(&board);
    board.rotate_clockwise();
    assert_eq!((board.falling_loc(), board.falling_rot()), (-2, 1));
    assert_eq!(occupied(&board), vec![0, 10, 20, 30]);
    assert_eq!(settled(&board), tiles);
    assert!(board.check_in_bounds());
    assert!(!board.check_overlap());
}

#[test]
fn hard_drop_settles_the_piece_and_counts_the_rows() {
    let mut board = TetrisBoard::make(10, 20, TetrisPieceType::T);
    assert_eq!(board.drop(), 20);
    assert_eq!(board.falling_loc(), -7);
    assert_eq!(settled(&board), vec![3, 4, 5, 14]);
    for cell in [3, 4, 5, 14] {
        assert_eq!(board.tile(cell), Some(TetrisPieceType::T));
    }
    assert!(board.check_overlap());
}

#[test]
fn hard_drop_rests_on_settled_cells() {
    let mut board = TetrisBoard::make(10, 20, TetrisPieceType::O);
    assert_eq!(board.drop(), 19);
    assert!(board.new_falling_piece(TetrisPieceType::O));
    assert_eq!(board.update_drop_loc(), 23);
    assert_eq!(board.drop(), 17);
    assert_eq!(settled(&board), vec![4, 5, 14, 15, 24, 25, 34, 35]);
}

#[test]
fn shadow_follows_the_piece_sideways() {
    let mut board = TetrisBoard::make(10, 20, TetrisPieceType::O);
    board.drop();
    assert!(board.new_falling_piece(TetrisPieceType::O));
    assert_eq!(board.update_drop_loc(), 23);
    assert_eq!(board.falling_loc(), 193);
    board.move_left();
    assert_eq!(board.drop_loc(), 22);
    board.move_left();
    assert_eq!(board.drop_loc(), 1);
    assert_eq!(board.falling_loc(), 191);
    assert_eq!(shadow(&board), vec![2, 3, 12, 13]);
}

#[test]
fn shadow_keeps_column_and_rotation() {
    let mut board = TetrisBoard::make(10, 20, TetrisPieceType::L);
    board.rotate_clockwise();
    board.move_right();
    let loc = board.falling_loc();
    let rot = board.falling_rot();
    let shadow = board.update_drop_loc();
    assert_eq!(board.falling_loc(), loc);
    assert_eq!(board.falling_rot(), rot);
    assert!(shadow <= loc);
    assert_eq!((loc - shadow) % 10, 0);
    assert_eq!(shadow, 4);
}

#[test]
fn filling_the_last_column_clears_one_line() {
    let mut board = bottom_row_short_of_one();
    assert_eq!(settled(&board), vec![0, 1, 2, 3, 4, 5, 6, 7, 8, 18, 28, 38]);
    assert_eq!(board.clear_lines(), 0);
    assert_eq!(board.drop(), 19);
    assert_eq!(board.clear_lines(), 1);
    assert_eq!(settled(&board), vec![8, 9, 18, 19, 28, 29]);
    assert_eq!(board.clear_lines(), 0);
}

#[test]
fn rows_above_a_cleared_line_move_down_in_order() {
    let mut board = TetrisBoard::make(10, 20, TetrisPieceType::I);
    for row in 0..2 {
        for _ in 0..3 {
            board.move_left();
        }
        board.drop();
        assert!(board.new_falling_piece(TetrisPieceType::I));
        board.move_right();
        board.drop();
        assert!(board.new_falling_piece(if row == 0 {
            TetrisPieceType::I
        } else {
            TetrisPieceType::O
        }));
    }
    // rows 0 and 1 hold the columns 0 to 7; an O piece goes on top at the left
    for _ in 0..4 {
        board.move_left();
    }
    assert_eq!(board.drop(), 17);
    assert!(board.new_falling_piece(TetrisPieceType::O));
    // an O piece in the columns 8 and 9 fills both rows
    for _ in 0..4 {
        board.move_right();
    }
    assert_eq!(board.drop(), 19);
    assert_eq!(board.clear_lines(), 2);
    assert_eq!(settled(&board), vec![0, 1, 10, 11]);
    assert_eq!(board.tile(0), Some(TetrisPieceType::O));
    for cell in 210..230 {
        assert_eq!(board.tile(cell), None);
    }
}

#[test]
fn clearing_leaves_the_piece_alone() {
    let mut board = bottom_row_short_of_one();
    board.drop();
    assert!(board.new_falling_piece(TetrisPieceType::S));
    let before = (board.falling_loc(), board.falling_rot(), board.falling_piece());
    assert_eq!(board.clear_lines(), 1);
    assert_eq!((board.falling_loc(), board.falling_rot(), board.falling_piece()), before);
}

#[test]
fn blocked_spawn_is_tried_one_row_lower() {
    let mut board = TetrisBoard::make(10, 20, TetrisPieceType::O);
    for k in 0..9 {
        assert_eq!(board.drop(), 19 - 2 * k);
        assert!(board.new_falling_piece(TetrisPieceType::O));
        assert_eq!(board.falling_loc(), 193);
    }
    // the tenth O piece brings the stack up to row 19, into the spawn rows
    assert_eq!(board.drop(), 1);
    assert!(!board.new_falling_piece(TetrisPieceType::O));
    assert_eq!(board.falling_loc(), 183);
    assert_eq!(board.falling_rot(), 0);
    assert!(board.check_overlap());
}

#[test]
fn spawn_fails_when_the_stack_reaches_the_top() {
    let mut board = TetrisBoard::make(10, 20, TetrisPieceType::I);
    for k in 1..=21 {
        assert_eq!(board.drop(), 22 - k);
        assert!(board.new_falling_piece(TetrisPieceType::I));
        assert_eq!(board.falling_loc(), 193);
    }
    assert_eq!(board.drop(), 0);
    assert!(!board.new_falling_piece(TetrisPieceType::I));
    assert_eq!(board.falling_loc(), 183);
}

#[test]
fn cells_show_what_is_on_them() {
    let mut board = TetrisBoard::make(10, 20, TetrisPieceType::O);
    board.drop();
    assert!(board.new_falling_piece(TetrisPieceType::T));
    assert_eq!(board.update_drop_loc(), 13);
    for cell in [4, 5, 14, 15] {
        assert_eq!(board.cell_look(cell), CellLook::Settled(TetrisPieceType::O));
    }
    for cell in [203, 204, 205, 214] {
        assert_eq!(board.cell_look(cell), CellLook::Falling(TetrisPieceType::T));
    }
    for cell in [23, 24, 25, 34] {
        assert_eq!(board.cell_look(cell), CellLook::Shadow(TetrisPieceType::T));
    }
    for cell in [-1, 0, 3, 13, 33, 35, 202, 206, 229, 230] {
        assert_eq!(board.cell_look(cell), CellLook::Empty);
    }
}

#[test]
fn settled_cell_hides_the_piece_that_lies_on_it() {
    let mut board = TetrisBoard::make(10, 20, TetrisPieceType::O);
    board.drop();
    // the piece that has just settled still stands where it fell
    assert_eq!(board.cell_look(4), CellLook::Settled(TetrisPieceType::O));
    assert!(board.check_loc_for_falling_piece(4));
}

#[test]
fn falling_piece_hides_its_shadow() {
    let mut board = TetrisBoard::make(10, 20, TetrisPieceType::O);
    while board.move_down() {}
    assert_eq!(board.drop_loc(), board.falling_loc());
    assert_eq!(board.cell_look(4), CellLook::Falling(TetrisPieceType::O));
}
