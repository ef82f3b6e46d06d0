use crate::grid::{
    lemma_clear_corner_in_range, lemma_kick_target_fits, lemma_resting_in_range,
    lemma_step_down_keeps_shadow, lemma_with_shadow_current, BoardView, BUFFER_ROWS, MAX_CELLS,
};
use crate::lines::{
    lemma_cleared_has_no_full_rows, lemma_cleared_wf, lemma_empty_has_no_full_rows,
    lemma_settled_fills_at_most_four,
};
use crate::piece::{kick_offsets, TetrisPieceType};
use crate::rules::{
    board_ready, queue_head, GameMsg, InputTypes, SessionView, BOARD_HEIGHT, BOARD_WIDTH,
};
use crate::scoring::line_score;
use vstd::prelude::*;

verus! {

/// A valid board whose drop shadow is computed anew is valid, and its shadow
/// is current.
pub proof fn lemma_with_shadow_valid(b: BoardView)
    requires
        b.wf(),
    ensures
        b.with_shadow().wf(),
        b.with_shadow().shadow_current(),
{
    lemma_resting_in_range(b);
    lemma_with_shadow_current(b);
}

/// A step down keeps a board valid, and a current drop shadow current.
pub proof fn lemma_moved_down_valid(b: BoardView)
    requires
        b.wf(),
    ensures
        b.moved_down().wf(),
        b.moved_down().tiles == b.tiles,
        b.shadow_current() ==> b.moved_down().shadow_current(),
{
    reveal(BoardView::fits_at);
    if b.fits_at(b.loc - b.width, b.rot) {
        lemma_clear_corner_in_range(b, b.loc - b.width, b.rot);
    }
    lemma_step_down_keeps_shadow(b);
}

/// A step to either side keeps a board valid, and a current drop shadow
/// current.
pub proof fn lemma_moved_sideways_valid(b: BoardView)
    requires
        b.wf(),
    ensures
        b.moved_left().wf(),
        b.moved_right().wf(),
        b.moved_left().tiles == b.tiles,
        b.moved_right().tiles == b.tiles,
        b.shadow_current() ==> b.moved_left().shadow_current() && b.moved_right().shadow_current(),
{
    reveal(BoardView::fits_at);
    if b.fits_at(b.loc - 1, b.rot) {
        lemma_clear_corner_in_range(b, b.loc - 1, b.rot);
        lemma_with_shadow_valid(b.with_loc(b.loc - 1));
    }
    if b.fits_at(b.loc + 1, b.rot) {
        lemma_clear_corner_in_range(b, b.loc + 1, b.rot);
        lemma_with_shadow_valid(b.with_loc(b.loc + 1));
    }
}

/// A rotation keeps a board valid, and a current drop shadow current.
pub proof fn lemma_rotated_valid(b: BoardView)
    requires
        b.wf(),
    ensures
        b.rotated().wf(),
        b.rotated().tiles == b.tiles,
        b.shadow_current() ==> b.rotated().shadow_current(),
{
    reveal(BoardView::fits_at);
    lemma_kick_target_fits(b, b.next_rot(), kick_offsets(b.piece, b.next_rot()), 0);
    match b.rotation_target() {
        Some(loc) => {
            lemma_clear_corner_in_range(b, loc, b.next_rot());
            lemma_with_shadow_valid(BoardView { loc: loc, rot: b.next_rot(), ..b });
        },
        None => {},
    }
}

/// A hard drop keeps a board valid; on a board without full rows it fills
/// at most four.
pub proof fn lemma_dropped_valid(b: BoardView)
    requires
        b.wf(),
    ensures
        b.dropped().wf(),
        b.full_rows() == 0 ==> b.dropped().full_rows() <= 4,
{
    lemma_resting_in_range(b);
    let landed = b.with_loc(b.resting());
    if b.full_rows() == 0 {
        lemma_settled_fills_at_most_four(landed);
        assert(b.dropped().tiles == landed.settled().tiles);
    }
}

/// A new piece keeps a board valid.
pub proof fn lemma_spawned_valid(b: BoardView, piece: TetrisPieceType)
    requires
        b.wf(),
    ensures
        b.spawned(piece).wf(),
        b.spawned(piece).tiles == b.tiles,
{
    let w = b.width;
    let h = b.rows;
    assert(0 <= (h - 4) * w && (h - 4) * w + 4 * w == w * h) by (nonlinear_arith)
        requires
            4 <= h,
            4 <= w,
    ;
}

/// An empty board of a size that a board may have is valid, its drop shadow
/// is current, and none of its rows is full.
pub proof fn lemma_empty_valid(width: int, rows: int, piece: TetrisPieceType)
    requires
        4 <= width,
        4 <= rows,
        width * rows <= MAX_CELLS,
    ensures
        BoardView::empty(width, rows, piece).wf(),
        BoardView::empty(width, rows, piece).shadow_current(),
        BoardView::empty(width, rows, piece).full_rows() == 0,
{
    assert(0 <= (rows - 4) * width && (rows - 4) * width + 4 * width == width * rows && 4 * width
        <= width * rows && 4 * rows <= width * rows) by (nonlinear_arith)
        requires
            4 <= rows,
            4 <= width,
    ;
    let bare = BoardView {
        width: width,
        rows: rows,
        tiles: Seq::new((width * rows) as nat, |i: int| None),
        piece: piece,
        loc: 0,
        rot: 0,
        shadow: 0,
    };
    let placed = bare.with_loc(bare.spawn_loc());
    assert(placed.wf());
    lemma_with_shadow_valid(placed);
    lemma_empty_has_no_full_rows(placed.with_shadow());
}

/// Clearing keeps a board valid and leaves no row full.
pub proof fn lemma_cleared_valid(b: BoardView)
    requires
        b.wf(),
    ensures
        b.cleared().wf(),
        b.cleared().full_rows() == 0,
{
    lemma_cleared_wf(b);
    lemma_cleared_has_no_full_rows(b);
}

/// A move to either side keeps a session valid.
pub proof fn lemma_sideways_keeps_valid(s: SessionView, kind: InputTypes, right: bool)
    requires
        s.wf(),
    ensures
        s.step_sideways(kind, right).next.wf(),
{
    reveal(board_ready);
    lemma_moved_sideways_valid(s.board);
}

/// A step down keeps a session valid.
pub proof fn lemma_down_keeps_valid(s: SessionView, kind: InputTypes)
    requires
        s.wf(),
        s.headroom(),
    ensures
        s.step_down(kind).next.wf(),
{
    reveal(board_ready);
    lemma_moved_down_valid(s.board);
}

/// A rotation keeps a session valid.
pub proof fn lemma_rotate_keeps_valid(s: SessionView)
    requires
        s.wf(),
    ensures
        s.step_rotate().next.wf(),
{
    reveal(board_ready);
    lemma_rotated_valid(s.board);
}

/// A hard drop keeps a session valid.
pub proof fn lemma_drop_keeps_valid(s: SessionView, supply: Seq<TetrisPieceType>)
    requires
        s.wf(),
        s.headroom(),
    ensures
        s.step_drop(supply).next.wf(),
{
    reveal(board_ready);
    if !s.game_end_screen {
        let b = s.board;
        lemma_dropped_valid(b);
        lemma_resting_in_range(b);
        let spawned = b.dropped().spawned(queue_head(s.piece_queue));
        lemma_spawned_valid(b.dropped(), queue_head(s.piece_queue));
        let rows = b.descent(b.loc) as int;
        assert(b.width * b.rows == 230) by (nonlinear_arith)
            requires
                b.width == 10,
                b.rows == 23,
        ;
        assert(rows * 10 == b.loc - b.resting());
        assert(rows <= 26) by (nonlinear_arith)
            requires
                rows * 10 <= 262,
        ;
        let cleared = spawned.full_rows() as int;
        assert(spawned.full_rows() == b.dropped().full_rows());
        assert(line_score(cleared) * s.level <= 800 * s.level) by (nonlinear_arith)
            requires
                0 <= line_score(cleared) <= 800,
                0 <= s.level,
        ;
        lemma_cleared_valid(spawned);
        lemma_with_shadow_valid(spawned.cleared());
    }
}

/// A step of gravity keeps a session valid.
pub proof fn lemma_tick_keeps_valid(s: SessionView, fresh: TetrisPieceType)
    requires
        s.wf(),
    ensures
        s.step_tick(fresh).next.wf(),
{
    reveal(board_ready);
    if s.game_end_screen {
        lemma_empty_valid(BOARD_WIDTH as int, BOARD_HEIGHT + BUFFER_ROWS, fresh);
        lemma_moved_down_valid(s.restarted(fresh).board);
    } else {
        lemma_moved_down_valid(s.board);
    }
}

/// A hold keeps a session valid.
pub proof fn lemma_hold_keeps_valid(s: SessionView)
    requires
        s.wf(),
    ensures
        s.step_hold().next.wf(),
{
    reveal(board_ready);
    if s.may_hold() {
        let incoming = match s.held_piece {
            Some(piece) => piece,
            None => queue_head(s.piece_queue),
        };
        lemma_spawned_valid(s.board, incoming);
        lemma_with_shadow_valid(s.board.spawned(incoming));
    }
}

/// Every message keeps a session valid: whatever it is told, a valid
/// session whose counters have room stays valid. In particular the rotation
/// state stays in `0..4`, the level stays one more than a tenth of the
/// lines cleared, and while the game is not over no row of the board is
/// full and the drop shadow lies where the piece would come to rest.
pub proof fn lemma_step_keeps_valid(
    s: SessionView,
    msg: GameMsg,
    supply: Seq<TetrisPieceType>,
    fresh: TetrisPieceType,
)
    requires
        s.wf(),
        s.headroom(),
    ensures
        s.step(msg, supply, fresh).next.wf(),
{
    match msg {
        GameMsg::Left(kind) => lemma_sideways_keeps_valid(s, kind, false),
        GameMsg::Right(kind) => lemma_sideways_keeps_valid(s, kind, true),
        GameMsg::Down(kind) => lemma_down_keeps_valid(s, kind),
        GameMsg::Drop => lemma_drop_keeps_valid(s, supply),
        GameMsg::Tick => lemma_tick_keeps_valid(s, fresh),
        GameMsg::Hold => lemma_hold_keeps_valid(s),
        GameMsg::Rotate => lemma_rotate_keeps_valid(s),
        _ => {},
    }
}

} // verus!
