use crate::piece::{
    bottom_extent, cell_offset, kick_offsets, left_extent, right_extent, top_extent,
    TetrisPieceType,
};
use vstd::arithmetic::div_mod::{
    lemma_fundamental_div_mod, lemma_fundamental_div_mod_converse, lemma_mod_bound,
};
use vstd::prelude::*;

verus! {

/// The largest number of cells that a board may have, buffer rows included.
pub const MAX_CELLS: usize = 0x4000_0000;

/// The number of buffer rows above the visible play field.
pub const BUFFER_ROWS: usize = 3;

/// A board as contracts see it. Cells are numbered row by row from the
/// bottom left: cell `i` lies in row `i / width` and column `i % width`,
/// and a piece falls towards row 0. The falling piece is given by the cell
/// at which the lower left corner of its 4x4 bounding box stands; that
/// corner may hang off the grid as long as the four occupied cells do not.
pub struct BoardView {
    /// The number of columns.
    pub width: int,
    /// The number of rows, buffer rows included.
    pub rows: int,
    /// For each cell, the piece that settled there, if any.
    pub tiles: Seq<Option<TetrisPieceType>>,
    /// The falling piece.
    pub piece: TetrisPieceType,
    /// The cell of the lower left corner of the falling piece's box.
    pub loc: int,
    /// The rotation state of the falling piece, in `0..4`.
    pub rot: int,
    /// The corner cell at which the falling piece would come to rest, as last
    /// computed.
    pub shadow: int,
}

/// How a cell of the board looks.
#[derive(Clone, Copy, PartialEq, Eq, Debug, Structural)]
pub enum CellLook {
    /// A piece of this type has settled in the cell.
    Settled(TetrisPieceType),
    /// The falling piece, of this type, occupies the cell.
    Falling(TetrisPieceType),
    /// The drop shadow of the falling piece, of this type, occupies the
    /// cell.
    Shadow(TetrisPieceType),
    /// The cell is empty.
    Empty,
}

/// Whether a piece with its corner at `loc` stays between the side walls and
/// above the floor of a board `w` columns wide, when its cells span the
/// columns `lo` to `hi` of its box, both included, and `vlo` is the lowest
/// row of the box that they reach: the column of its leftmost cell leaves
/// room for its width, `hi - lo + 1`, and the row of its lowest cell is not
/// negative. The definition is hidden from the solver until it is revealed.
#[verifier::opaque]
pub open spec fn within_walls_and_floor(w: int, loc: int, lo: int, hi: int, vlo: int) -> bool {
    &&& (loc + lo) % w + (hi - lo + 1) <= w
    &&& (loc + lo) / w + vlo >= 0
}

impl BoardView {
    /// The validity of a board: at least four columns and four rows, so that
    /// neither is more than a quarter of the cells, one tile per cell, and
    /// the two corner cells within the range that a piece with all its cells
    /// on the grid can have.
    pub open spec fn wf(self) -> bool {
        &&& 4 <= self.width <= MAX_CELLS / 4
        &&& 4 <= self.rows <= MAX_CELLS / 4
        &&& self.width * self.rows <= MAX_CELLS
        &&& self.tiles.len() == self.width * self.rows
        &&& 0 <= self.rot < 4
        &&& self.corner_in_range(self.loc)
        &&& self.corner_in_range(self.shadow)
    }

    /// The range of corner cells that this board ever holds.
    pub open spec fn corner_in_range(self, loc: int) -> bool {
        -3 * self.width - 3 <= loc < self.width * self.rows
    }

    /// The corner cell at which a new piece appears: its box is centred and
    /// touches the top of the buffer rows.
    pub open spec fn spawn_loc(self) -> int {
        (self.rows - 4) * self.width + (self.width - 4) / 2
    }

    /// The `k`-th cell of the falling piece when its corner stands at `loc`
    /// in rotation state `rot`.
    pub open spec fn cell_at(self, loc: int, rot: int, k: int) -> int {
        let o = cell_offset(self.piece, rot, k);
        loc + (o / 4) * self.width + o % 4
    }

    /// Whether one of the first `n` cells of the falling piece, with its
    /// corner at `loc` in rotation state `rot`, is cell `idx`.
    pub open spec fn covers_among(self, loc: int, rot: int, idx: int, n: int) -> bool {
        ||| 0 < n && self.cell_at(loc, rot, 0) == idx
        ||| 1 < n && self.cell_at(loc, rot, 1) == idx
        ||| 2 < n && self.cell_at(loc, rot, 2) == idx
        ||| 3 < n && self.cell_at(loc, rot, 3) == idx
    }

    /// Whether the falling piece, with its corner at `loc` in rotation state
    /// `rot`, occupies cell `idx`.
    pub open spec fn covers(self, loc: int, rot: int, idx: int) -> bool {
        self.covers_among(loc, rot, idx, 4)
    }

    /// A cell collides when it lies outside the grid or is settled.
    pub open spec fn collision_at(self, idx: int) -> bool {
        idx < 0 || idx >= self.tiles.len() || self.tiles[idx] is Some
    }

    /// How cell `idx` looks: a settled cell shows what settled there;
    /// another cell shows the falling piece if that occupies it, else the
    /// drop shadow if that occupies it, and is empty otherwise.
    pub open spec fn look_at(self, idx: int) -> CellLook {
        if 0 <= idx < self.tiles.len() && self.tiles[idx] is Some {
            CellLook::Settled(self.tiles[idx]->0)
        } else if self.covers(self.loc, self.rot, idx) {
            CellLook::Falling(self.piece)
        } else if self.covers(self.shadow, self.rot, idx) {
            CellLook::Shadow(self.piece)
        } else {
            CellLook::Empty
        }
    }

    /// Whether one of the four cells of the piece collides.
    pub open spec fn overlaps_at(self, loc: int, rot: int) -> bool {
        ||| self.collision_at(self.cell_at(loc, rot, 0))
        ||| self.collision_at(self.cell_at(loc, rot, 1))
        ||| self.collision_at(self.cell_at(loc, rot, 2))
        ||| self.collision_at(self.cell_at(loc, rot, 3))
    }

    /// Whether the piece stays between the side walls and above the floor:
    /// its leftmost cell stands in a column that leaves room for its width,
    /// and its lowest cell in a row that is not below row 0.
    pub open spec fn in_bounds_at(self, loc: int, rot: int) -> bool {
        within_walls_and_floor(
            self.width,
            loc,
            left_extent(self.piece, rot),
            right_extent(self.piece, rot),
            bottom_extent(self.piece, rot),
        )
    }

    /// Whether the piece may stand at `loc` in rotation state `rot`: it is
    /// between the walls and above the floor, and none of its cells
    /// collides. The definition is hidden from the solver until it is
    /// revealed.
    #[verifier::opaque]
    pub open spec fn fits_at(self, loc: int, rot: int) -> bool {
        self.in_bounds_at(loc, rot) && !self.overlaps_at(loc, rot)
    }

    /// Whether the falling piece stands where it may.
    pub open spec fn piece_fits(self) -> bool {
        self.fits_at(self.loc, self.rot)
    }

    /// The board without what does not bear on where a piece fits: the
    /// place of the falling piece and its drop shadow.
    pub open spec fn frame(self) -> Self {
        BoardView { loc: 0, shadow: 0, ..self }
    }

    /// The number of rows that the piece can fall from `loc` in its current
    /// rotation state: it falls as long as it fits one row lower.
    pub open spec fn fall(self, loc: int) -> nat
        decreases loc + 3 * self.width + 4,
    {
        if 0 < self.width && self.fits_at(loc - self.width, self.rot) {
            proof {
                reveal(BoardView::fits_at);
                lemma_clear_corner_in_range(self, loc - self.width, self.rot);
            }
            1 + self.fall(loc - self.width)
        } else {
            0
        }
    }

    /// The number of rows that the piece can fall from `loc`, whatever the
    /// board records of its place and its shadow.
    pub open spec fn descent(self, loc: int) -> nat {
        self.frame().fall(loc)
    }

    /// The corner cell at which the falling piece comes to rest when it
    /// falls straight down.
    pub open spec fn resting(self) -> int {
        self.loc - self.descent(self.loc) * self.width
    }

    /// Whether the recorded drop shadow is where the falling piece would
    /// come to rest.
    pub open spec fn shadow_current(self) -> bool {
        self.shadow == self.resting()
    }

    /// The board with its drop shadow computed anew.
    pub open spec fn with_shadow(self) -> Self {
        BoardView { shadow: self.resting(), ..self }
    }

    /// The board with the falling piece at `loc`.
    pub open spec fn with_loc(self, loc: int) -> Self {
        BoardView { loc: loc, ..self }
    }

    /// The column of a cell.
    pub open spec fn col_of(self, idx: int) -> int {
        idx % self.width
    }

    /// The row of a cell.
    pub open spec fn row_of(self, idx: int) -> int {
        idx / self.width
    }

    /// The board after a step down: the piece moves one row down if it fits
    /// there, and stays otherwise.
    pub open spec fn moved_down(self) -> Self {
        if self.fits_at(self.loc - self.width, self.rot) {
            self.with_loc(self.loc - self.width)
        } else {
            self
        }
    }

    /// Whether the falling piece is an I piece whose leftmost cell stands in
    /// the first column.
    pub open spec fn at_left_edge(self) -> bool {
        self.piece == TetrisPieceType::I && self.col_of(
            self.loc + left_extent(self.piece, self.rot),
        ) == 0
    }

    /// Whether the falling piece is an I piece whose leftmost cell stands in
    /// the last column.
    pub open spec fn at_right_edge(self) -> bool {
        self.piece == TetrisPieceType::I && self.col_of(
            self.loc + left_extent(self.piece, self.rot),
        ) == self.width - 1
    }

    /// The board after a step to the left: unless an I piece stands at the
    /// left edge, the piece moves one column to the left if it fits there,
    /// and the drop shadow follows; otherwise nothing changes.
    pub open spec fn moved_left(self) -> Self {
        if !self.at_left_edge() && self.fits_at(self.loc - 1, self.rot) {
            self.with_loc(self.loc - 1).with_shadow()
        } else {
            self
        }
    }

    /// The board after a step to the right, in the same way.
    pub open spec fn moved_right(self) -> Self {
        if !self.at_right_edge() && self.fits_at(self.loc + 1, self.rot) {
            self.with_loc(self.loc + 1).with_shadow()
        } else {
            self
        }
    }

    /// The first of the kick candidates from index `i` on at which the piece
    /// fits in rotation state `rot`, as the corner cell that it gives.
    pub open spec fn kick_target(self, rot: int, kicks: Seq<(int, int)>, i: int) -> Option<int>
        decreases kicks.len() - i,
    {
        if i < 0 || i >= kicks.len() {
            None
        } else if self.fits_at(self.loc + kicks[i].0 + kicks[i].1 * self.width, rot) {
            Some(self.loc + kicks[i].0 + kicks[i].1 * self.width)
        } else {
            self.kick_target(rot, kicks, i + 1)
        }
    }

    /// The rotation state that follows the current one.
    pub open spec fn next_rot(self) -> int {
        (self.rot + 1) % 4
    }

    /// The corner cell that a clockwise rotation leads to: the current one
    /// if the rotated piece fits there, else the first kick candidate at
    /// which it fits, if any.
    pub open spec fn rotation_target(self) -> Option<int> {
        if self.fits_at(self.loc, self.next_rot()) {
            Some(self.loc)
        } else {
            self.kick_target(self.next_rot(), kick_offsets(self.piece, self.next_rot()), 0)
        }
    }

    /// The board after a clockwise rotation: where there is a target, the
    /// piece stands there in the next rotation state and the drop shadow
    /// follows; otherwise nothing changes.
    pub open spec fn rotated(self) -> Self {
        match self.rotation_target() {
            Some(loc) => BoardView { loc: loc, rot: self.next_rot(), ..self }.with_shadow(),
            None => self,
        }
    }

    /// The tiles after the falling piece has settled where it stands: its
    /// cells on the grid hold its type, the others are unchanged.
    pub open spec fn stamped(self) -> Seq<Option<TetrisPieceType>> {
        Seq::new(
            self.tiles.len(),
            |i: int|
                if self.covers(self.loc, self.rot, i) {
                    Some(self.piece)
                } else {
                    self.tiles[i]
                },
        )
    }

    /// The board after a hard drop: the piece has fallen to rest and
    /// settled.
    pub open spec fn dropped(self) -> Self {
        let landed = self.with_loc(self.resting());
        BoardView { tiles: landed.stamped(), ..landed }
    }

    /// A board without settled cells, of `width` columns and `rows` rows,
    /// with `piece` at the spawn cell and its drop shadow computed.
    pub open spec fn empty(width: int, rows: int, piece: TetrisPieceType) -> Self {
        let bare = BoardView {
            width: width,
            rows: rows,
            tiles: Seq::new((width * rows) as nat, |i: int| None),
            piece: piece,
            loc: 0,
            rot: 0,
            shadow: 0,
        };
        bare.with_loc(bare.spawn_loc()).with_shadow()
    }

    /// Whether the falling piece fits where it stands in each of the four
    /// rotation states.
    pub open spec fn unobstructed(self) -> bool {
        &&& self.fits_at(self.loc, 0)
        &&& self.fits_at(self.loc, 1)
        &&& self.fits_at(self.loc, 2)
        &&& self.fits_at(self.loc, 3)
    }

    /// The board after `piece` has appeared: in rotation state 0 at the
    /// spawn cell, or one row lower if it collides there.
    pub open spec fn spawned(self, piece: TetrisPieceType) -> Self {
        let fresh = BoardView { piece: piece, rot: 0, loc: self.spawn_loc(), ..self };
        if fresh.overlaps_at(fresh.loc, 0) {
            fresh.with_loc(fresh.loc - self.width)
        } else {
            fresh
        }
    }
}

/// Every kick candidate moves a piece by at most two columns and two rows.
pub proof fn lemma_kick_offsets_small(piece: TetrisPieceType, rot: int, i: int)
    requires
        0 <= i < kick_offsets(piece, rot).len(),
    ensures
        -2 <= kick_offsets(piece, rot)[i].0 <= 2,
        -2 <= kick_offsets(piece, rot)[i].1 <= 2,
        kick_offsets(piece, rot).len() <= 5,
{
}

/// Where a piece can fall, it fits all the way: each of the rows that it
/// falls through holds it, and the row below its resting place does not.
pub proof fn lemma_descent_path(b: BoardView, loc: int, j: int)
    requires
        0 < b.width,
        0 <= j <= b.descent(loc),
    ensures
        j >= 1 ==> b.fits_at(loc - j * b.width, b.rot),
        j == b.descent(loc) ==> !b.fits_at(loc - (j + 1) * b.width, b.rot),
        b.descent(loc - j * b.width) == b.descent(loc) - j,
    decreases j,
{
    let f = b.frame();
    if j == 0 {
        assert(loc - 0 * b.width == loc);
        assert(loc - (0 + 1) * b.width == loc - b.width) by (nonlinear_arith);
        lemma_fits_same_frame(f, b, loc - b.width, b.rot);
    } else {
        lemma_descent_path(b, loc, j - 1);
        let here = loc - (j - 1) * b.width;
        assert(here - b.width == loc - j * b.width) by (nonlinear_arith)
            requires
                here == loc - (j - 1) * b.width,
        ;
        assert(loc - j * b.width - b.width == loc - (j + 1) * b.width) by (nonlinear_arith);
        assert(b.descent(here) >= 1);
        lemma_fits_same_frame(f, b, here - b.width, b.rot);
        lemma_fits_same_frame(f, b, here - b.width - b.width, b.rot);
    }
}

/// A piece comes to rest with its corner in the range of a valid board.
pub proof fn lemma_resting_in_range(b: BoardView)
    requires
        b.wf(),
    ensures
        b.corner_in_range(b.resting()),
{
    let d = b.descent(b.loc) as int;
    assert(0 <= d * b.width) by (nonlinear_arith)
        requires
            0 <= d,
            0 < b.width,
    ;
    if d >= 1 {
        reveal(BoardView::fits_at);
        lemma_descent_path(b, b.loc, d);
        lemma_clear_corner_in_range(b, b.loc - d * b.width, b.rot);
    } else {
        assert(d * b.width == 0) by (nonlinear_arith)
            requires
                d == 0,
        ;
    }
}

/// The resting place lies straight below the piece: in its column, and as
/// many rows lower as the piece can fall.
pub proof fn lemma_resting_below(b: BoardView)
    requires
        0 < b.width,
    ensures
        b.resting() <= b.loc,
        b.col_of(b.resting()) == b.col_of(b.loc),
        b.row_of(b.resting()) == b.row_of(b.loc) - b.descent(b.loc),
        b.row_of(b.resting()) <= b.row_of(b.loc),
{
    let w = b.width;
    let d = b.descent(b.loc) as int;
    let q = b.loc / w;
    let c = b.loc % w;
    lemma_fundamental_div_mod(b.loc, w);
    lemma_mod_bound(b.loc, w);
    assert(b.loc - d * w == (q - d) * w + c) by (nonlinear_arith)
        requires
            b.loc == w * q + c,
    ;
    lemma_fundamental_div_mod_converse(b.loc - d * w, w, q - d, c);
    assert(0 <= d * w) by (nonlinear_arith)
        requires
            0 <= d,
            0 < w,
    ;
}

/// Whether a piece fits depends on the tiles, the piece and the width of
/// the board alone.
pub proof fn lemma_fits_same_frame(a: BoardView, b: BoardView, loc: int, rot: int)
    requires
        a.tiles == b.tiles,
        a.piece == b.piece,
        a.width == b.width,
    ensures
        a.fits_at(loc, rot) == b.fits_at(loc, rot),
{
    reveal(BoardView::fits_at);
}

/// A piece that fits where it stands in the next rotation state rotates in
/// place.
pub proof fn lemma_rotation_in_place(b: BoardView)
    requires
        b.fits_at(b.loc, b.next_rot()),
    ensures
        b.rotated().loc == b.loc,
        b.rotated().rot == b.next_rot(),
        b.rotated().tiles == b.tiles,
        b.rotated().piece == b.piece,
        b.rotated().width == b.width,
        b.rotated().rows == b.rows,
{
}

/// Four clockwise rotations of a piece that fits where it stands in every
/// rotation state bring it back to where it was, in the rotation state in
/// which it was.
pub proof fn lemma_four_rotations_return(b: BoardView)
    requires
        b.wf(),
        b.unobstructed(),
    ensures
        b.rotated().rotated().rotated().rotated().loc == b.loc,
        b.rotated().rotated().rotated().rotated().rot == b.rot,
        b.rotated().rotated().rotated().rotated().piece == b.piece,
        b.rotated().rotated().rotated().rotated().tiles == b.tiles,
{
    let b1 = b.rotated();
    lemma_rotation_in_place(b);
    let b2 = b1.rotated();
    lemma_fits_same_frame(b1, b, b.loc, b1.next_rot());
    lemma_rotation_in_place(b1);
    let b3 = b2.rotated();
    lemma_fits_same_frame(b2, b, b.loc, b2.next_rot());
    lemma_rotation_in_place(b2);
    lemma_fits_same_frame(b3, b, b.loc, b3.next_rot());
    lemma_rotation_in_place(b3);
}

/// A piece that steps down comes to rest where it would have come to rest
/// before: a drop shadow that is current stays so.
pub proof fn lemma_step_down_keeps_shadow(b: BoardView)
    requires
        0 < b.width,
    ensures
        b.moved_down().resting() == b.resting(),
        b.shadow_current() ==> b.moved_down().shadow_current(),
{
    if b.fits_at(b.loc - b.width, b.rot) {
        let after = b.moved_down();
        assert(after.frame() == b.frame());
        lemma_fits_same_frame(b.frame(), b, b.loc - b.width, b.rot);
        let d = b.descent(b.loc - b.width) as int;
        assert(b.descent(b.loc) == 1 + d);
        assert(b.loc - (1 + d) * b.width == b.loc - b.width - d * b.width) by (nonlinear_arith);
    }
}

/// A piece that fits where it stands still does after a step down and
/// after a step to either side.
pub proof fn lemma_steps_keep_fit(b: BoardView)
    requires
        b.piece_fits(),
    ensures
        b.moved_down().piece_fits(),
        b.moved_left().piece_fits(),
        b.moved_right().piece_fits(),
{
    lemma_fits_same_frame(b.moved_down(), b, b.moved_down().loc, b.rot);
    lemma_fits_same_frame(b.moved_left(), b, b.moved_left().loc, b.rot);
    lemma_fits_same_frame(b.moved_right(), b, b.moved_right().loc, b.rot);
}

/// A piece that fits where it stands still does after a rotation.
pub proof fn lemma_rotation_keeps_fit(b: BoardView)
    requires
        b.piece_fits(),
    ensures
        b.rotated().piece_fits(),
{
    lemma_kick_target_fits(b, b.next_rot(), kick_offsets(b.piece, b.next_rot()), 0);
    lemma_fits_same_frame(b.rotated(), b, b.rotated().loc, b.rotated().rot);
}

/// A rotation either leaves the board as it is, or brings the piece into the
/// next rotation state at a place where it fits: between the walls, above
/// the floor, and clear of collisions.
pub proof fn lemma_rotation_fits_or_stays(b: BoardView)
    ensures
        b.rotated() == b || (b.rotated().rot == b.next_rot() && b.rotated().piece_fits()),
        b.rotated().piece == b.piece,
        b.rotated().tiles == b.tiles,
{
    lemma_kick_target_fits(b, b.next_rot(), kick_offsets(b.piece, b.next_rot()), 0);
    lemma_fits_same_frame(b.rotated(), b, b.rotated().loc, b.rotated().rot);
}

/// The corner cell that a kick gives is one at which the piece fits.
pub proof fn lemma_kick_target_fits(b: BoardView, rot: int, kicks: Seq<(int, int)>, i: int)
    ensures
        match b.kick_target(rot, kicks, i) {
            Some(loc) => b.fits_at(loc, rot),
            None => true,
        },
    decreases kicks.len() - i,
{
    if 0 <= i < kicks.len() && !b.fits_at(b.loc + kicks[i].0 + kicks[i].1 * b.width, rot) {
        lemma_kick_target_fits(b, rot, kicks, i + 1);
    }
}

/// A drop shadow computed anew is current.
pub proof fn lemma_with_shadow_current(b: BoardView)
    ensures
        b.with_shadow().resting() == b.resting(),
        b.with_shadow().shadow_current(),
{
    assert(b.with_shadow().frame() == b.frame());
}

/// A piece none of whose cells collides has its corner in the range of a
/// valid board.
pub proof fn lemma_clear_corner_in_range(b: BoardView, loc: int, rot: int)
    requires
        0 < b.width,
        !b.overlaps_at(loc, rot),
    ensures
        -3 * b.width - 3 <= loc < b.tiles.len(),
{
    lemma_offsets_in_box(b.piece, rot, 0);
    let o = cell_offset(b.piece, rot, 0);
    let r = o / 4;
    assert(0 <= r * b.width <= 3 * b.width) by (nonlinear_arith)
        requires
            0 <= r <= 3,
            0 < b.width,
    ;
    assert(!b.collision_at(b.cell_at(loc, rot, 0)));
}

/// The four cells of every piece lie in the box: their rows and columns are
/// in `0..4`, and the extents are the first and the last of both.
pub proof fn lemma_offsets_in_box(piece: TetrisPieceType, rot: int, k: int)
    requires
        0 <= k < 4,
    ensures
        0 <= cell_offset(piece, rot, k) < 16,
        left_extent(piece, rot) <= cell_offset(piece, rot, k) % 4 <= right_extent(piece, rot),
        bottom_extent(piece, rot) <= cell_offset(piece, rot, k) / 4 <= top_extent(piece, rot),
        0 <= left_extent(piece, rot) <= 2,
        left_extent(piece, rot) <= right_extent(piece, rot) <= 3,
        0 <= bottom_extent(piece, rot) <= 2,
        bottom_extent(piece, rot) <= top_extent(piece, rot) <= 3,
        left_extent(piece, rot) >= 1 ==> bottom_extent(piece, rot) == 0,
{
}

/// The quotient of machine division, which rounds towards zero.
pub open spec fn quot_toward_zero(a: int, w: int) -> int {
    if a >= 0 {
        a / w
    } else {
        -((-a) / w)
    }
}

/// The remainder of machine division, which has the sign of the dividend.
pub open spec fn rem_toward_zero(a: int, w: int) -> int {
    if a >= 0 {
        a % w
    } else {
        -((-a) % w)
    }
}

/// The row that the bound check reads off a corner cell: the row of the
/// corner, except that a corner hanging off the left wall of row 0 reads as
/// row 0 while the leftmost cell of the piece is on the grid.
pub open spec fn corner_row(w: int, loc: int, lo: int) -> int {
    if loc + lo < 0 {
        quot_toward_zero(loc + 1 - w, w)
    } else {
        quot_toward_zero(loc, w)
    }
}

/// The machine form of the bound check is the bound check: a remainder taken
/// after a shift by two rows, and the row read off the corner, decide as the
/// column and the row of the piece's leftmost cell do.
pub proof fn lemma_bounds_formula(w: int, loc: int, lo: int, hi: int, vlo: int)
    requires
        4 <= w,
        0 <= lo <= 2,
        lo <= hi <= 3,
        0 <= vlo <= 2,
        lo >= 1 ==> vlo == 0,
    ensures
        (rem_toward_zero(loc + 2 * w + lo, w) <= w - (hi + 1) + lo && vlo + corner_row(w, loc, lo)
            >= 0) <==> within_walls_and_floor(w, loc, lo, hi, vlo),
{
    reveal(within_walls_and_floor);
    let b = loc + lo;
    let q = b / w;
    let c = b % w;
    lemma_fundamental_div_mod(b, w);
    lemma_mod_bound(b, w);
    assert(b == w * q + c);
    let ql = loc / w;
    let cl = loc % w;
    lemma_fundamental_div_mod(loc, w);
    lemma_mod_bound(loc, w);
    assert(loc == w * ql + cl);
    if loc < 0 {
        // rounding towards zero after the shift by `w - 1` rounds down
        let m = w - 1 - loc;
        assert(m == (-ql) * w + (w - 1 - cl)) by (nonlinear_arith)
            requires
                m == w - 1 - loc,
                loc == w * ql + cl,
        ;
        lemma_fundamental_div_mod_converse(m, w, -ql, w - 1 - cl);
        assert(quot_toward_zero(loc + 1 - w, w) == ql);
        assert(ql < 0) by (nonlinear_arith)
            requires
                loc == w * ql + cl,
                loc < 0,
                0 <= cl,
                w > 0,
        ;
    }
    if b + 2 * w >= 0 {
        assert(b + 2 * w == (q + 2) * w + c) by (nonlinear_arith)
            requires
                b == w * q + c,
        ;
        lemma_fundamental_div_mod_converse(b + 2 * w, w, q + 2, c);
        assert(rem_toward_zero(loc + 2 * w + lo, w) == c);
        if b >= 0 {
            assert(q >= 0) by (nonlinear_arith)
                requires
                    b == w * q + c,
                    b >= 0,
                    c < w,
                    w > 0,
            ;
            if loc >= 0 {
                assert(ql >= 0) by (nonlinear_arith)
                    requires
                        loc == w * ql + cl,
                        loc >= 0,
                        cl < w,
                        w > 0,
                ;
            } else {
                lemma_fundamental_div_mod_converse(-loc, w, 0, -loc);
            }
            assert(corner_row(w, loc, lo) >= 0);
        } else {
            assert(q < 0) by (nonlinear_arith)
                requires
                    b == w * q + c,
                    b < 0,
                    0 <= c,
                    w > 0,
            ;
            if lo == 0 {
                assert(ql == q);
            }
        }
    } else {
        lemma_mod_bound(-(b + 2 * w), w);
        assert(rem_toward_zero(loc + 2 * w + lo, w) <= 0);
        assert(q <= -3) by (nonlinear_arith)
            requires
                b == w * q + c,
                b + 2 * w < 0,
                0 <= c,
                w > 0,
        ;
        assert(ql <= -3) by (nonlinear_arith)
            requires
                loc == w * ql + cl,
                loc + 2 * w < 0,
                0 <= cl,
                w > 0,
        ;
    }
}

} // verus!
