use crate::grid::{
    corner_row, lemma_bounds_formula, lemma_clear_corner_in_range, lemma_fits_same_frame,
    lemma_kick_offsets_small, lemma_offsets_in_box, lemma_resting_below,
    lemma_step_down_keeps_shadow, lemma_with_shadow_current, within_walls_and_floor, BoardView,
    CellLook, BUFFER_ROWS, MAX_CELLS,
};
use crate::lines::{
    lemma_cleared_keeps_rows, lemma_cleared_top_empty, lemma_cleared_wf, lemma_kept_len,
    lemma_row_span,
};
use crate::piece::{cell_offset, kick_offsets, left_extent, TetrisPieceType};
use vstd::arithmetic::div_mod::{
    lemma_fundamental_div_mod, lemma_fundamental_div_mod_converse, lemma_mod_bound,
};
use vstd::prelude::*;

verus! {

/// The playing field with its falling piece.
pub struct TetrisBoard {
    tiles: Vec<Option<TetrisPieceType>>,
    dimensions: (i64, i64),
    falling_piece: TetrisPieceType,
    falling_loc: i64,
    falling_rot: usize,
    drop_loc: i64,
}

impl View for TetrisBoard {
    type V = BoardView;

    closed spec fn view(&self) -> BoardView {
        BoardView {
            width: self.dimensions.0 as int,
            rows: self.dimensions.1 as int,
            tiles: self.tiles@,
            piece: self.falling_piece,
            loc: self.falling_loc as int,
            rot: self.falling_rot as int,
            shadow: self.drop_loc as int,
        }
    }
}

/// The cell `loc + (off / 4) * w + off % 4` of a box whose corner is `loc`.
fn cell_index(w: i64, loc: i64, off: i64) -> (idx: i64)
    requires
        0 < w <= MAX_CELLS,
        0 <= off < 16,
        -0x8000_0000 <= loc <= 0x8000_0000,
    ensures
        idx == loc + (off / 4) * w + off % 4,
{
    let r: i64 = off / 4;
    assert(0 <= r * w <= 3 * w) by (nonlinear_arith)
        requires
            0 <= r <= 3,
            0 < w,
    ;
    loc + r * w + off % 4
}

/// The row that the bound check reads off the corner cell `loc` of a piece
/// whose leftmost cell stands in column `lo` of its box.
fn corner_row_of(w: i64, loc: i64, lo: i64) -> (r: i64)
    requires
        4 <= w <= 0x1000_0000,
        0 <= lo <= 2,
        -0x8000_0000 <= loc <= 0x8000_0000,
    ensures
        r == corner_row(w as int, loc as int, lo as int),
{
    if loc + lo < 0 {
        (loc + 1 - w) / w
    } else {
        loc / w
    }
}

/// The bound check on a corner cell, from the extents of the piece: the
/// remainder of the leftmost cell, shifted up by two rows, leaves room for
/// the width of the piece, and the lowest row of the piece is not negative.
fn check_walls_and_floor(w: i64, loc: i64, lo: i64, hi: i64, vlo: i64) -> (b: bool)
    requires
        4 <= w <= 0x1000_0000,
        0 <= lo <= 2,
        lo <= hi <= 3,
        0 <= vlo <= 2,
        lo >= 1 ==> vlo == 0,
        -0x8000_0000 <= loc <= 0x8000_0000,
    ensures
        b == within_walls_and_floor(w as int, loc as int, lo as int, hi as int, vlo as int),
{
    proof {
        lemma_bounds_formula(w as int, loc as int, lo as int, hi as int, vlo as int);
    }
    (loc + 2 * w + lo) % w <= w - (hi + 1) + lo && vlo + corner_row_of(w, loc, lo) >= 0
}

impl TetrisBoard {
    /// Whether a board of `width` columns and `height` visible rows can be
    /// made: a piece needs four columns, a play field one row, and the cells
    /// are limited in number.
    pub fn valid_dimensions(width: usize, height: usize) -> (ok: bool)
        ensures
            ok == (4 <= width && 1 <= height && width * (height + BUFFER_ROWS) <= MAX_CELLS),
    {
        if width < 4 || height < 1 || width > MAX_CELLS || height > MAX_CELLS {
            proof {
                if 4 <= width && 1 <= height {
                    assert(width * (height + BUFFER_ROWS) > MAX_CELLS) by (nonlinear_arith)
                        requires
                            4 <= width,
                            1 <= height,
                            width > MAX_CELLS || height > MAX_CELLS,
                            BUFFER_ROWS == 3,
                    ;
                }
            }
            return false;
        }
        assert(width * (height + BUFFER_ROWS) <= 0x4000_0000 * 0x4000_0003) by (nonlinear_arith)
            requires
                width <= 0x4000_0000,
                height + BUFFER_ROWS <= 0x4000_0003,
        ;
        let cells: u64 = width as u64 * (height as u64 + BUFFER_ROWS as u64);
        cells <= MAX_CELLS as u64
    }

    /// An empty board of `width` columns and `height` visible rows below
    /// the buffer rows, with `first_falling_piece` at the spawn cell and its
    /// drop shadow computed.
    pub fn make(width: usize, height: usize, first_falling_piece: TetrisPieceType) -> (board: Self)
        requires
            4 <= width,
            1 <= height,
            width * (height + BUFFER_ROWS) <= MAX_CELLS,
        ensures
            board@.wf(),
            board@.width == width,
            board@.rows == height + BUFFER_ROWS,
            forall|i: int| 0 <= i < board@.tiles.len() ==> board@.tiles[i] is None,
            board@.piece == first_falling_piece,
            board@.rot == 0,
            board@.loc == board@.spawn_loc(),
            board@.shadow_current(),
            board@ == BoardView::empty(
                width as int,
                height + BUFFER_ROWS,
                first_falling_piece,
            ),
    {
        proof {
            assert(4 * width <= width * (height + BUFFER_ROWS) && 4 * (height + BUFFER_ROWS)
                <= width * (height + BUFFER_ROWS)) by (nonlinear_arith)
                requires
                    4 <= width,
                    4 <= height + BUFFER_ROWS,
            ;
        }
        let rows: usize = height + BUFFER_ROWS;
        let cells: usize = width * rows;
        let mut tiles: Vec<Option<TetrisPieceType>> = Vec::new();
        while tiles.len() < cells
            invariant
                tiles.len() <= cells,
                forall|i: int| 0 <= i < tiles.len() ==> tiles[i] is None,
            decreases cells - tiles.len(),
        {
            tiles.push(None);
        }
        let mut board = Self {
            tiles,
            dimensions: (width as i64, rows as i64),
            falling_piece: first_falling_piece,
            falling_loc: 0,
            falling_rot: 0,
            drop_loc: 0,
        };
        let spawn = board.spawn_cell();
        board.falling_loc = spawn;
        assert(board@.tiles =~= Seq::new((width * rows) as nat, |i: int| None));
        board.update_drop_loc();
        board
    }

    /// The number of columns.
    pub fn width(&self) -> (w: usize)
        requires
            self@.wf(),
        ensures
            w == self@.width,
    {
        self.dimensions.0 as usize
    }

    /// The number of rows, buffer rows included.
    pub fn rows(&self) -> (h: usize)
        requires
            self@.wf(),
        ensures
            h == self@.rows,
    {
        self.dimensions.1 as usize
    }

    /// The falling piece.
    pub fn falling_piece(&self) -> (p: TetrisPieceType)
        ensures
            p == self@.piece,
    {
        self.falling_piece
    }

    /// The corner cell of the falling piece.
    pub fn falling_loc(&self) -> (loc: i64)
        ensures
            loc == self@.loc,
    {
        self.falling_loc
    }

    /// The rotation state of the falling piece.
    pub fn falling_rot(&self) -> (rot: usize)
        ensures
            rot == self@.rot,
    {
        self.falling_rot
    }

    /// The corner cell of the drop shadow, as last computed.
    pub fn drop_loc(&self) -> (loc: i64)
        ensures
            loc == self@.shadow,
    {
        self.drop_loc
    }

    /// The piece that settled in cell `idx`, if the cell is on the grid and
    /// settled.
    pub fn tile(&self, idx: i64) -> (t: Option<TetrisPieceType>)
        ensures
            t == if 0 <= idx < self@.tiles.len() {
                self@.tiles[idx as int]
            } else {
                None
            },
    {
        if idx >= 0 && (idx as u64) < self.tiles.len() as u64 {
            self.tiles[idx as usize]
        } else {
            None
        }
    }

    /// Whether cell `idx` lies outside the grid or is settled.
    pub fn collision_at(&self, idx: i64) -> (b: bool)
        ensures
            b == self@.collision_at(idx as int),
    {
        if idx < 0 || (idx as u64) >= self.tiles.len() as u64 {
            true
        } else {
            self.tiles[idx as usize].is_some()
        }
    }

    /// The row that the bound check reads off the corner cell `loc`.
    fn row_at(&self, loc: i64, rot: usize) -> (r: i64)
        requires
            self@.wf(),
            rot < 4,
            -0x8000_0000 <= loc <= 0x8000_0000,
        ensures
            r == corner_row(self@.width, loc as int, left_extent(self@.piece, rot as int)),
    {
        proof {
            lemma_offsets_in_box(self@.piece, rot as int, 0);
        }
        corner_row_of(self.dimensions.0, loc, self.falling_piece.horiz_extents(rot).0)
    }

    /// Whether the piece, with its corner at `loc` in rotation state `rot`,
    /// stays between the side walls and above the floor.
    fn in_bounds_at(&self, loc: i64, rot: usize) -> (b: bool)
        requires
            self@.wf(),
            rot < 4,
            -0x8000_0000 <= loc <= 0x8000_0000,
        ensures
            b == self@.in_bounds_at(loc as int, rot as int),
    {
        proof {
            lemma_offsets_in_box(self@.piece, rot as int, 0);
        }
        let horiz_extents = self.falling_piece.horiz_extents(rot);
        let vert_extents = self.falling_piece.vert_extents(rot);
        check_walls_and_floor(
            self.dimensions.0,
            loc,
            horiz_extents.0,
            horiz_extents.1,
            vert_extents.0,
        )
    }

    /// Whether one of the four cells of the piece, with its corner at `loc`
    /// in rotation state `rot`, collides.
    fn overlap_at(&self, loc: i64, rot: usize) -> (b: bool)
        requires
            self@.wf(),
            rot < 4,
            -0x8000_0000 <= loc <= 0x8000_0000,
        ensures
            b == self@.overlaps_at(loc as int, rot as int),
    {
        let cells = self.falling_piece.get_idx_arr(rot);
        let mut k: usize = 0;
        while k < 4
            invariant
                self@.wf(),
                rot < 4,
                -0x8000_0000 <= loc <= 0x8000_0000,
                0 < self.dimensions.0 <= MAX_CELLS,
                self.dimensions.0 == self@.width,
                0 <= k <= 4,
                forall|j: int|
                    0 <= j < 4 ==> 0 <= #[trigger] cells[j] < 16 && cells[j] == cell_offset(
                        self@.piece,
                        rot as int,
                        j,
                    ),
                forall|j: int|
                    0 <= j < k ==> !self@.collision_at(
                        #[trigger] self@.cell_at(loc as int, rot as int, j),
                    ),
            decreases 4 - k,
        {
            let idx = cell_index(self.dimensions.0, loc, cells[k]);
            if self.collision_at(idx) {
                return true;
            }
            k += 1;
        }
        false
    }

    /// Whether the piece may stand at `loc` in rotation state `rot`.
    fn fits_at(&self, loc: i64, rot: usize) -> (b: bool)
        requires
            self@.wf(),
            rot < 4,
            -0x8000_0000 <= loc <= 0x8000_0000,
        ensures
            b == self@.fits_at(loc as int, rot as int),
            b ==> self@.corner_in_range(loc as int),
    {
        proof {
            reveal(BoardView::fits_at);
            if self@.fits_at(loc as int, rot as int) {
                lemma_clear_corner_in_range(self@, loc as int, rot as int);
            }
        }
        self.in_bounds_at(loc, rot) && !self.overlap_at(loc, rot)
    }

    /// The row that the bound check reads off the corner of the falling
    /// piece.
    pub fn row(&self) -> (r: i64)
        requires
            self@.wf(),
        ensures
            r == corner_row(self@.width, self@.loc, left_extent(self@.piece, self@.rot)),
    {
        self.row_at(self.falling_loc, self.falling_rot)
    }

    /// Whether the falling piece stays between the side walls and above the
    /// floor.
    pub fn check_in_bounds(&self) -> (b: bool)
        requires
            self@.wf(),
        ensures
            b == self@.in_bounds_at(self@.loc, self@.rot),
    {
        self.in_bounds_at(self.falling_loc, self.falling_rot)
    }

    /// Whether one of the four cells of the falling piece collides.
    pub fn check_overlap(&self) -> (b: bool)
        requires
            self@.wf(),
        ensures
            b == self@.overlaps_at(self@.loc, self@.rot),
    {
        self.overlap_at(self.falling_loc, self.falling_rot)
    }

    /// The corner cell at which the falling piece comes to rest, and the
    /// number of rows that it falls to get there.
    fn resting_loc(&self) -> (r: (i64, u32))
        requires
            self@.wf(),
        ensures
            r.0 == self@.resting(),
            r.1 == self@.descent(self@.loc),
            self@.corner_in_range(r.0 as int),
    {
        let w = self.dimensions.0;
        let mut loc = self.falling_loc;
        let mut fallen: u32 = 0;
        while self.fits_at(loc - w, self.falling_rot)
            invariant
                self@.wf(),
                w == self@.width,
                4 <= w <= 0x1000_0000,
                self@.width * self@.rows <= MAX_CELLS,
                self@.corner_in_range(loc as int),
                loc == self@.loc - fallen * w,
                self@.descent(self@.loc) == fallen + self@.descent(loc as int),
            decreases loc + 3 * w + 4,
        {
            proof {
                lemma_fits_same_frame(self@.frame(), self@, loc - w, self@.rot);
                assert(fallen < 0x2000_0000) by (nonlinear_arith)
                    requires
                        loc == self@.loc - fallen * w,
                        self@.loc < 0x4000_0000,
                        -3 * w - 3 <= loc - w,
                        4 <= w,
                ;
                assert((fallen + 1) * w == fallen * w + w) by (nonlinear_arith);
            }
            loc -= w;
            fallen += 1;
        }
        proof {
            lemma_fits_same_frame(self@.frame(), self@, loc - w, self@.rot);
        }
        (loc, fallen)
    }

    /// Computes the drop shadow: the corner cell at which the falling piece
    /// would come to rest if it fell straight down. The piece itself stays
    /// where it is.
    pub fn update_drop_loc(&mut self) -> (shadow: i64)
        requires
            old(self)@.wf(),
        ensures
            final(self)@ == old(self)@.with_shadow(),
            final(self)@.wf(),
            final(self)@.shadow_current(),
            shadow == final(self)@.shadow,
            shadow <= final(self)@.loc,
            final(self)@.col_of(shadow as int) == final(self)@.col_of(final(self)@.loc),
            final(self)@.row_of(shadow as int) <= final(self)@.row_of(final(self)@.loc),
    {
        proof {
            lemma_with_shadow_current(self@);
            lemma_resting_below(self@);
        }
        let rest = self.resting_loc();
        self.drop_loc = rest.0;
        self.drop_loc
    }

    /// Moves the falling piece one row down if it fits there, and tells
    /// whether it moved.
    pub fn move_down(&mut self) -> (moved: bool)
        requires
            old(self)@.wf(),
        ensures
            moved == old(self)@.fits_at(old(self)@.loc - old(self)@.width, old(self)@.rot),
            final(self)@ == old(self)@.moved_down(),
            final(self)@.wf(),
            old(self)@.shadow_current() ==> final(self)@.shadow_current(),
    {
        proof {
            lemma_step_down_keeps_shadow(self@);
        }
        let below = self.falling_loc - self.dimensions.0;
        if !self.fits_at(below, self.falling_rot) {
            return false;
        }
        self.falling_loc = below;
        true
    }

    /// The column in which the leftmost cell of the falling piece stands.
    fn leftmost_col(&self) -> (c: i64)
        requires
            self@.wf(),
        ensures
            c == self@.col_of(self@.loc + left_extent(self@.piece, self@.rot)),
    {
        proof {
            lemma_offsets_in_box(self@.piece, self@.rot, 0);
        }
        let w = self.dimensions.0;
        let lo = self.falling_piece.horiz_extents(self.falling_rot).0;
        proof {
            let b = self@.loc + lo;
            let q = b / (w as int);
            let c = b % (w as int);
            lemma_fundamental_div_mod(b, w as int);
            lemma_mod_bound(b, w as int);
            assert(b + 4 * w == (q + 4) * w + c) by (nonlinear_arith)
                requires
                    b == w * q + c,
            ;
            lemma_fundamental_div_mod_converse(b + 4 * w, w as int, q + 4, c);
        }
        (self.falling_loc + lo + 4 * w) % w
    }

    /// Moves the falling piece one column to the right if it fits there and
    /// is no I piece at the right edge; the drop shadow follows a move.
    pub fn move_right(&mut self)
        requires
            old(self)@.wf(),
        ensures
            final(self)@ == old(self)@.moved_right(),
            final(self)@.wf(),
            old(self)@.shadow_current() ==> final(self)@.shadow_current(),
    {
        let at_edge = self.falling_piece == TetrisPieceType::I && self.leftmost_col()
            == self.dimensions.0 - 1;
        if !at_edge && self.fits_at(self.falling_loc + 1, self.falling_rot) {
            self.falling_loc += 1;
            self.update_drop_loc();
        }
    }

    /// Moves the falling piece one column to the left if it fits there and
    /// is no I piece at the left edge; the drop shadow follows a move.
    pub fn move_left(&mut self)
        requires
            old(self)@.wf(),
        ensures
            final(self)@ == old(self)@.moved_left(),
            final(self)@.wf(),
            old(self)@.shadow_current() ==> final(self)@.shadow_current(),
    {
        let at_edge = self.falling_piece == TetrisPieceType::I && self.leftmost_col() == 0;
        if !at_edge && self.fits_at(self.falling_loc - 1, self.falling_rot) {
            self.falling_loc -= 1;
            self.update_drop_loc();
        }
    }

    /// The cell at which a new piece appears.
    fn spawn_cell(&self) -> (loc: i64)
        requires
            self@.wf(),
        ensures
            loc == self@.spawn_loc(),
            0 <= loc < self@.width * self@.rows - 3 * self@.width,
    {
        proof {
            let w = self@.width;
            let h = self@.rows;
            assert(0 <= (h - 4) * w && (h - 4) * w + 4 * w == w * h) by (nonlinear_arith)
                requires
                    4 <= h,
                    4 <= w,
            ;
        }
        (self.dimensions.1 - 4) * self.dimensions.0 + (self.dimensions.0 - 4) / 2
    }

    /// Replaces the falling piece by `new_piece`, which appears in rotation
    /// state 0 at the spawn cell, or one row lower if it collides there.
    /// Tells whether the piece is clear of collisions where it now stands.
    pub fn new_falling_piece(&mut self, new_piece: TetrisPieceType) -> (clear: bool)
        requires
            old(self)@.wf(),
        ensures
            final(self)@ == old(self)@.spawned(new_piece),
            final(self)@.wf(),
            clear == !final(self)@.overlaps_at(final(self)@.loc, final(self)@.rot),
    {
        let spawn = self.spawn_cell();
        self.falling_piece = new_piece;
        self.falling_loc = spawn;
        self.falling_rot = 0;
        if self.check_overlap() {
            self.falling_loc -= self.dimensions.0;
        }
        !self.check_overlap()
    }

    /// Whether the piece, with its corner at `loc` in its current rotation
    /// state, occupies cell `idx`.
    fn covers_at(&self, loc: i64, idx: i64) -> (b: bool)
        requires
            self@.wf(),
            -0x8000_0000 <= loc <= 0x8000_0000,
        ensures
            b == self@.covers(loc as int, self@.rot, idx as int),
    {
        let cells = self.falling_piece.get_idx_arr(self.falling_rot);
        let mut k: usize = 0;
        while k < 4
            invariant
                self@.wf(),
                -0x8000_0000 <= loc <= 0x8000_0000,
                0 < self.dimensions.0 <= MAX_CELLS,
                self.dimensions.0 == self@.width,
                0 <= k <= 4,
                forall|j: int|
                    0 <= j < 4 ==> 0 <= #[trigger] cells[j] < 16 && cells[j] == cell_offset(
                        self@.piece,
                        self@.rot,
                        j,
                    ),
                !self@.covers_among(loc as int, self@.rot, idx as int, k as int),
            decreases 4 - k,
        {
            if cell_index(self.dimensions.0, loc, cells[k]) == idx {
                return true;
            }
            k += 1;
        }
        false
    }

    /// Whether the falling piece occupies cell `idx`.
    pub fn check_loc_for_falling_piece(&self, idx: i64) -> (b: bool)
        requires
            self@.wf(),
        ensures
            b == self@.covers(self@.loc, self@.rot, idx as int),
    {
        self.covers_at(self.falling_loc, idx)
    }

    /// Whether the drop shadow of the falling piece occupies cell `idx`.
    pub fn check_drop_loc(&self, idx: i64) -> (b: bool)
        requires
            self@.wf(),
        ensures
            b == self@.covers(self@.shadow, self@.rot, idx as int),
    {
        self.covers_at(self.drop_loc, idx)
    }

    /// How cell `idx` looks.
    pub fn cell_look(&self, idx: i64) -> (look: CellLook)
        requires
            self@.wf(),
        ensures
            look == self@.look_at(idx as int),
    {
        match self.tile(idx) {
            Some(piece) => CellLook::Settled(piece),
            None => if self.check_loc_for_falling_piece(idx) {
                CellLook::Falling(self.falling_piece)
            } else if self.check_drop_loc(idx) {
                CellLook::Shadow(self.falling_piece)
            } else {
                CellLook::Empty
            },
        }
    }

    /// Drops the falling piece: it falls straight down to rest and settles
    /// there, each of its cells on the grid taking its type. Returns the
    /// number of rows that it fell.
    pub fn drop(&mut self) -> (cells_dropped: u32)
        requires
            old(self)@.wf(),
        ensures
            cells_dropped == old(self)@.descent(old(self)@.loc),
            final(self)@ == old(self)@.dropped(),
            final(self)@.wf(),
    {
        let rest = self.resting_loc();
        self.falling_loc = rest.0;
        let ghost landed = self@;
        let cells = self.falling_piece.get_idx_arr(self.falling_rot);
        let mut k: usize = 0;
        while k < 4
            invariant
                landed.wf(),
                self@ == (BoardView { tiles: self@.tiles, ..landed }),
                self@.tiles.len() == landed.tiles.len(),
                0 < self.dimensions.0 <= MAX_CELLS,
                -0x8000_0000 <= self.falling_loc <= 0x8000_0000,
                0 <= k <= 4,
                forall|j: int|
                    0 <= j < 4 ==> 0 <= #[trigger] cells[j] < 16 && cells[j] == cell_offset(
                        landed.piece,
                        landed.rot,
                        j,
                    ),
                forall|i: int|
                    0 <= i < landed.tiles.len() ==> #[trigger] self@.tiles[i] == if landed.covers_among(
                        landed.loc,
                        landed.rot,
                        i,
                        k as int,
                    ) {
                        Some(landed.piece)
                    } else {
                        landed.tiles[i]
                    },
            decreases 4 - k,
        {
            let loc = cell_index(self.dimensions.0, self.falling_loc, cells[k]);
            if loc >= 0 && (loc as u64) < self.tiles.len() as u64 {
                self.tiles.set(loc as usize, Some(self.falling_piece));
            }
            k += 1;
        }
        assert(self@.tiles =~= landed.stamped());
        rest.1
    }

    /// Rotates the falling piece clockwise. If the rotated piece does not fit
    /// where it stands, the kick candidates of the new rotation state are
    /// tried in order and the first at which it fits is taken; if there is
    /// none, nothing changes. The drop shadow follows a rotation.
    pub fn rotate_clockwise(&mut self)
        requires
            old(self)@.wf(),
        ensures
            final(self)@ == old(self)@.rotated(),
            final(self)@.wf(),
            old(self)@.shadow_current() ==> final(self)@.shadow_current(),
    {
        let rot = (self.falling_rot + 1) % 4;
        let w = self.dimensions.0;
        let loc = self.falling_loc;
        if self.fits_at(loc, rot) {
            self.falling_rot = rot;
            self.update_drop_loc();
            return ;
        }
        let kicks = self.falling_piece.secondary_tests(rot);
        let ghost table = kick_offsets(self@.piece, rot as int);
        let mut i: usize = 0;
        while i < kicks.len()
            invariant
                self@ == old(self)@,
                self@.wf(),
                rot == self@.next_rot(),
                !self@.fits_at(self@.loc, rot as int),
                w == self@.width,
                4 <= w <= 0x1000_0000,
                loc == self@.loc,
                table == kick_offsets(self@.piece, rot as int),
                kicks@.len() == table.len(),
                forall|j: int|
                    0 <= j < kicks@.len() ==> (#[trigger] kicks@[j]).0 == table[j].0 && kicks@[j].1
                        == table[j].1,
                0 <= i <= kicks.len(),
                self@.kick_target(rot as int, table, 0) == self@.kick_target(
                    rot as int,
                    table,
                    i as int,
                ),
            decreases kicks.len() - i,
        {
            let (x, y) = kicks[i];
            proof {
                lemma_kick_offsets_small(self@.piece, rot as int, i as int);
                assert(-2 * w <= y * w <= 2 * w) by (nonlinear_arith)
                    requires
                        -2 <= y <= 2,
                        0 < w,
                ;
            }
            let target = loc + x + y * w;
            if self.fits_at(target, rot) {
                proof {
                    assert(self@.kick_target(rot as int, table, i as int) == Some(target as int));
                }
                self.falling_loc = target;
                self.falling_rot = rot;
                self.update_drop_loc();
                return ;
            }
            i += 1;
        }
    }

    /// Whether every cell of row `r` is settled.
    fn row_is_full(&self, r: usize) -> (b: bool)
        requires
            self@.wf(),
            r < self@.rows,
        ensures
            b == self@.row_full(r as int),
    {
        proof {
            lemma_row_span(self@.width, self@.rows, r as int);
        }
        let w = self.dimensions.0 as usize;
        let start = r * w;
        let mut c: usize = 0;
        while c < w
            invariant
                self@.wf(),
                w == self@.width,
                start == r * w,
                start + w <= self.tiles.len(),
                self@.row_tiles(r as int) == self@.tiles.subrange(start as int, start + w),
                c <= w,
                forall|j: int| 0 <= j < c ==> (#[trigger] self@.row_tiles(r as int)[j]) is Some,
            decreases w - c,
        {
            assert(self@.row_tiles(r as int)[c as int] == self@.tiles[start + c]);
            if self.tiles[start + c].is_none() {
                return false;
            }
            c += 1;
        }
        true
    }

    /// Copies the tiles of row `from` to the row `to` below it.
    fn copy_row(&mut self, from: usize, to: usize)
        requires
            old(self)@.wf(),
            to < from < old(self)@.rows,
        ensures
            final(self)@ == (BoardView { tiles: final(self)@.tiles, ..old(self)@ }),
            final(self)@.tiles.len() == old(self)@.tiles.len(),
            final(self)@.row_tiles(to as int) == old(self)@.row_tiles(from as int),
            forall|i: int|
                0 <= i < old(self)@.tiles.len() && !(to * old(self)@.width <= i < (to + 1) * old(
                    self,
                )@.width) ==> final(self)@.tiles[i] == old(self)@.tiles[i],
    {
        proof {
            lemma_row_span(self@.width, self@.rows, from as int);
            lemma_row_span(self@.width, self@.rows, to as int);
            assert((to + 1) * self@.width <= from * self@.width) by (nonlinear_arith)
                requires
                    to + 1 <= from,
                    0 < self@.width,
            ;
        }
        let w = self.dimensions.0 as usize;
        let src = from * w;
        let dst = to * w;
        let mut c: usize = 0;
        while c < w
            invariant
                self@ == (BoardView { tiles: self@.tiles, ..old(self)@ }),
                self@.tiles.len() == old(self)@.tiles.len(),
                w == self@.width,
                src == from * w,
                dst == to * w,
                dst + w <= src,
                src + w <= self.tiles.len(),
                c <= w,
                forall|i: int|
                    0 <= i < self@.tiles.len() && !(dst <= i < dst + c) ==> self@.tiles[i] == old(
                        self,
                    )@.tiles[i],
                forall|i: int|
                    dst <= i < dst + c ==> #[trigger] self@.tiles[i] == old(self)@.tiles[i - dst
                        + src],
            decreases w - c,
        {
            let t = self.tiles[src + c];
            self.tiles.set(dst + c, t);
            c += 1;
        }
        assert(self@.row_tiles(to as int) =~= old(self)@.row_tiles(from as int));
    }

    /// Empties row `r`.
    fn clear_row(&mut self, r: usize)
        requires
            old(self)@.wf(),
            r < old(self)@.rows,
        ensures
            final(self)@ == (BoardView { tiles: final(self)@.tiles, ..old(self)@ }),
            final(self)@.tiles.len() == old(self)@.tiles.len(),
            forall|i: int|
                r * old(self)@.width <= i < (r + 1) * old(self)@.width ==> final(self)@.tiles[i]
                    is None,
            forall|i: int|
                0 <= i < old(self)@.tiles.len() && !(r * old(self)@.width <= i < (r + 1) * old(
                    self,
                )@.width) ==> final(self)@.tiles[i] == old(self)@.tiles[i],
    {
        proof {
            lemma_row_span(self@.width, self@.rows, r as int);
        }
        let w = self.dimensions.0 as usize;
        let dst = r * w;
        let mut c: usize = 0;
        while c < w
            invariant
                self@ == (BoardView { tiles: self@.tiles, ..old(self)@ }),
                self@.tiles.len() == old(self)@.tiles.len(),
                w == self@.width,
                dst == r * w,
                dst + w <= self.tiles.len(),
                c <= w,
                forall|i: int|
                    0 <= i < self@.tiles.len() && !(dst <= i < dst + c) ==> self@.tiles[i] == old(
                        self,
                    )@.tiles[i],
                forall|i: int| dst <= i < dst + c ==> self@.tiles[i] is None,
            decreases w - c,
        {
            self.tiles.set(dst + c, None);
            c += 1;
        }
    }

    /// Clears the full rows: the rows that are not full move down, in their
    /// order, by the number of full rows below them, and as many empty rows
    /// as were cleared stand at the top. Returns the number of rows cleared.
    pub fn clear_lines(&mut self) -> (cleared: u32)
        requires
            old(self)@.wf(),
        ensures
            cleared == old(self)@.full_rows(),
            final(self)@ == old(self)@.cleared(),
            final(self)@.wf(),
            forall|r: int, c: int|
                0 <= r < old(self)@.rows && 0 <= c < old(self)@.width && !old(self)@.row_full(r)
                    ==> final(self)@.tile(r - old(self)@.full_below(r), c) == #[trigger] old(
                    self,
                )@.tile(r, c),
            forall|r: int, c: int|
                old(self)@.rows - cleared <= r < old(self)@.rows && 0 <= c < old(self)@.width
                    ==> (#[trigger] final(self)@.tile(r, c)) is None,
    {
        let ghost start = self@;
        let w = self.dimensions.0 as usize;
        let h = self.dimensions.1 as usize;
        let mut line_counter: usize = 0;
        let mut r: usize = 0;
        while r < h
            invariant
                start.wf(),
                self@ == (BoardView { tiles: self@.tiles, ..start }),
                self@.tiles.len() == start.tiles.len(),
                w == start.width,
                h == start.rows,
                r <= h,
                line_counter == start.full_below(r as int),
                line_counter <= r,
                self@.tiles.subrange(0, (r - line_counter) * w) == start.kept_below(r as int),
                forall|i: int| r * w <= i < start.tiles.len() ==> self@.tiles[i] == start.tiles[i],
            decreases h - r,
        {
            proof {
                lemma_row_span(start.width, start.rows, r as int);
                lemma_kept_len(start, r as int);
                assert(self@.row_tiles(r as int) =~= start.row_tiles(r as int));
                assert((r - line_counter) * w + w == (r + 1 - line_counter) * w)
                    by (nonlinear_arith);
                assert((r - line_counter) * w <= r * w) by (nonlinear_arith)
                    requires
                        0 <= line_counter <= r,
                        0 < w,
                ;
            }
            let ghost before = self@;
            if self.row_is_full(r) {
                line_counter += 1;
            } else {
                if line_counter > 0 {
                    self.copy_row(r, r - line_counter);
                }
                proof {
                    let low = (r - line_counter) as int;
                    lemma_row_span(start.width, start.rows, low);
                    assert(self@.row_tiles(low) =~= start.row_tiles(r as int));
                    assert(self@.tiles.subrange(0, (low + 1) * w) =~= before.tiles.subrange(
                        0,
                        low * w,
                    ) + self@.row_tiles(low));
                }
            }
            r += 1;
        }
        let kept = h - line_counter;
        proof {
            lemma_kept_len(start, h as int);
            lemma_cleared_wf(start);
        }
        let mut top: usize = kept;
        while top < h
            invariant
                start.wf(),
                self@ == (BoardView { tiles: self@.tiles, ..start }),
                self@.tiles.len() == start.tiles.len(),
                w == start.width,
                h == start.rows,
                kept == h - line_counter,
                kept <= top <= h,
                self@.tiles.subrange(0, kept * w) == start.kept_below(h as int),
                forall|i: int| kept * w <= i < top * w ==> self@.tiles[i] is None,
            decreases h - top,
        {
            proof {
                lemma_row_span(start.width, start.rows, top as int);
                assert(kept * w <= top * w) by (nonlinear_arith)
                    requires
                        kept <= top,
                        0 < w,
                ;
            }
            let ghost before = self@;
            self.clear_row(top);
            assert(self@.tiles.subrange(0, kept * w) =~= before.tiles.subrange(0, kept * w));
            top += 1;
        }
        proof {
            assert(kept * w + line_counter * w == h * w) by (nonlinear_arith)
                requires
                    kept == h - line_counter,
            ;
            assert(h * w == w * h) by (nonlinear_arith);
            assert(self@.tiles =~= start.cleared().tiles) by {
                assert forall|i: int| 0 <= i < self@.tiles.len() implies self@.tiles[i]
                    == start.cleared().tiles[i] by {
                    if i < kept * w {
                        assert(self@.tiles.subrange(0, kept * w)[i] == self@.tiles[i]);
                    }
                }
            }
            assert forall|r: int, c: int|
                0 <= r < start.rows && 0 <= c < start.width && !start.row_full(r) implies self@.tile(
                r - start.full_below(r),
                c,
            ) == #[trigger] start.tile(r, c) by {
                lemma_cleared_keeps_rows(start, r, c);
            }
            assert forall|r: int, c: int|
                start.rows - line_counter <= r < start.rows && 0 <= c < start.width implies (
            #[trigger] self@.tile(r, c)) is None by {
                lemma_cleared_top_empty(start, r, c);
            }
        }
        line_counter as u32
    }
}

} // verus!
