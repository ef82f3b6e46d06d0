use crate::grid::BoardView;
use crate::piece::TetrisPieceType;
use vstd::prelude::*;

verus! {

/// The tiles of row `r` of a grid `w` cells wide, from left to right.
pub open spec fn row_of_tiles(
    tiles: Seq<Option<TetrisPieceType>>,
    w: int,
    r: int,
) -> Seq<Option<TetrisPieceType>> {
    tiles.subrange(r * w, (r + 1) * w)
}

/// Whether every cell of row `r` is settled.
pub open spec fn row_is_full(tiles: Seq<Option<TetrisPieceType>>, w: int, r: int) -> bool {
    forall|c: int| 0 <= c < w ==> (#[trigger] row_of_tiles(tiles, w, r)[c]) is Some
}

/// The number of full rows below row `r`.
pub open spec fn full_rows_below(tiles: Seq<Option<TetrisPieceType>>, w: int, r: int) -> nat
    decreases r,
{
    if r <= 0 {
        0
    } else if row_is_full(tiles, w, r - 1) {
        full_rows_below(tiles, w, r - 1) + 1
    } else {
        full_rows_below(tiles, w, r - 1)
    }
}

/// The tiles of the rows below row `r` that are not full, row after row from
/// the lowest up.
pub open spec fn kept_rows_below(
    tiles: Seq<Option<TetrisPieceType>>,
    w: int,
    r: int,
) -> Seq<Option<TetrisPieceType>>
    decreases r,
{
    if r <= 0 {
        Seq::empty()
    } else if row_is_full(tiles, w, r - 1) {
        kept_rows_below(tiles, w, r - 1)
    } else {
        kept_rows_below(tiles, w, r - 1) + row_of_tiles(tiles, w, r - 1)
    }
}

impl BoardView {
    /// The tile in column `c` of row `r`.
    pub open spec fn tile(self, r: int, c: int) -> Option<TetrisPieceType> {
        self.tiles[r * self.width + c]
    }

    /// The tiles of row `r`, from left to right.
    pub open spec fn row_tiles(self, r: int) -> Seq<Option<TetrisPieceType>> {
        row_of_tiles(self.tiles, self.width, r)
    }

    /// Whether every cell of row `r` is settled.
    pub open spec fn row_full(self, r: int) -> bool {
        row_is_full(self.tiles, self.width, r)
    }

    /// The number of full rows below row `r`.
    pub open spec fn full_below(self, r: int) -> nat {
        full_rows_below(self.tiles, self.width, r)
    }

    /// The number of full rows of the board.
    pub open spec fn full_rows(self) -> nat {
        self.full_below(self.rows)
    }

    /// The tiles of the rows below row `r` that are not full, row after row
    /// from the lowest up.
    pub open spec fn kept_below(self, r: int) -> Seq<Option<TetrisPieceType>> {
        kept_rows_below(self.tiles, self.width, r)
    }

    /// The board after its full rows have been cleared: the rows that are
    /// not full, in their order, stand at the bottom, and above them as many
    /// empty rows as were cleared.
    pub open spec fn cleared(self) -> Self {
        BoardView {
            tiles: self.kept_below(self.rows) + Seq::new(
                (self.full_rows() * self.width) as nat,
                |i: int| None,
            ),
            ..self
        }
    }

    /// How many of the four cells of the falling piece lie on the grid below
    /// cell `limit`.
    pub open spec fn cells_under(self, limit: int) -> int {
        (if 0 <= self.cell_at(self.loc, self.rot, 0) < limit { 1int } else { 0 })
        + (if 0 <= self.cell_at(self.loc, self.rot, 1) < limit { 1int } else { 0 })
        + (if 0 <= self.cell_at(self.loc, self.rot, 2) < limit { 1int } else { 0 })
        + (if 0 <= self.cell_at(self.loc, self.rot, 3) < limit { 1int } else { 0 })
    }

    /// The board after the falling piece has settled where it stands.
    pub open spec fn settled(self) -> Self {
        BoardView { tiles: self.stamped(), ..self }
    }
}

/// Where the rows of a grid begin: row `r` of `h` rows of `w` cells begins at
/// cell `r * w` and ends before the grid does.
pub proof fn lemma_row_span(w: int, h: int, r: int)
    requires
        0 < w,
        0 <= r < h,
    ensures
        0 <= r * w,
        r * w + w == (r + 1) * w,
        (r + 1) * w <= h * w,
        h * w == w * h,
{
    assert(0 <= r * w && r * w + w == (r + 1) * w && (r + 1) * w <= h * w && h * w == w * h)
        by (nonlinear_arith)
        requires
            0 < w,
            0 <= r < h,
    ;
}

/// The rows kept below row `r` are `r` rows less the full ones.
pub proof fn lemma_kept_len(b: BoardView, r: int)
    requires
        b.wf(),
        0 <= r <= b.rows,
    ensures
        b.full_below(r) <= r,
        b.kept_below(r).len() == (r - b.full_below(r)) * b.width,
    decreases r,
{
    if r > 0 {
        lemma_kept_len(b, r - 1);
        lemma_row_span(b.width, b.rows, r - 1);
        let k = (r - 1) - b.full_below(r - 1);
        assert(k * b.width + b.width == (k + 1) * b.width) by (nonlinear_arith);
    } else {
        assert(0 * b.width == 0);
    }
}

/// The rows kept below a row are the first of the rows kept below any row
/// above it.
pub proof fn lemma_kept_prefix(b: BoardView, r: int, above: int)
    requires
        b.wf(),
        0 <= r <= above <= b.rows,
    ensures
        b.kept_below(r).len() <= b.kept_below(above).len(),
        b.kept_below(above).subrange(0, b.kept_below(r).len() as int) == b.kept_below(r),
    decreases above - r,
{
    if r < above {
        lemma_kept_prefix(b, r, above - 1);
        assert(b.kept_below(above).subrange(0, b.kept_below(r).len() as int) =~= b.kept_below(
            above - 1,
        ).subrange(0, b.kept_below(r).len() as int));
    } else {
        assert(b.kept_below(above).subrange(0, b.kept_below(r).len() as int) =~= b.kept_below(r));
    }
}

/// Clearing keeps every row that is not full: it comes to stand lower by
/// the number of full rows below it, each of its cells in its column.
pub proof fn lemma_cleared_keeps_rows(b: BoardView, r: int, c: int)
    requires
        b.wf(),
        0 <= r < b.rows,
        0 <= c < b.width,
        !b.row_full(r),
    ensures
        0 <= r - b.full_below(r) < b.rows - b.full_rows(),
        b.cleared().tile(r - b.full_below(r), c) == b.tile(r, c),
{
    lemma_kept_len(b, r);
    lemma_kept_len(b, r + 1);
    lemma_kept_len(b, b.rows);
    lemma_kept_prefix(b, r + 1, b.rows);
    lemma_row_span(b.width, b.rows, r);
    let low = r - b.full_below(r);
    let i = low * b.width + c;
    assert(b.kept_below(r + 1) == b.kept_below(r) + b.row_tiles(r));
    assert(low * b.width + b.width == (low + 1) * b.width) by (nonlinear_arith);
    assert(b.kept_below(r + 1)[i] == b.row_tiles(r)[c]);
    assert(b.kept_below(b.rows).subrange(0, b.kept_below(r + 1).len() as int)[i] == b.kept_below(
        b.rows,
    )[i]);
    let kept_rows = b.rows - b.full_rows();
    assert(low + 1 <= kept_rows) by (nonlinear_arith)
        requires
            (low + 1) * b.width <= kept_rows * b.width,
            0 < b.width,
    ;
}

/// Clearing leaves as many empty rows at the top as it cleared full rows.
pub proof fn lemma_cleared_top_empty(b: BoardView, r: int, c: int)
    requires
        b.wf(),
        b.rows - b.full_rows() <= r < b.rows,
        0 <= c < b.width,
    ensures
        b.cleared().tile(r, c) is None,
{
    lemma_kept_len(b, b.rows);
    lemma_row_span(b.width, b.rows, r);
    let kept_rows = b.rows - b.full_rows();
    assert(kept_rows * b.width <= r * b.width) by (nonlinear_arith)
        requires
            kept_rows <= r,
            0 < b.width,
    ;
    assert(kept_rows * b.width + b.full_rows() * b.width == b.rows * b.width)
        by (nonlinear_arith)
        requires
            kept_rows == b.rows - b.full_rows(),
    ;
}

/// Clearing keeps the number of cells, and with it the validity of the
/// board.
pub proof fn lemma_cleared_wf(b: BoardView)
    requires
        b.wf(),
    ensures
        b.cleared().wf(),
        b.full_rows() <= b.rows,
{
    lemma_kept_len(b, b.rows);
    let kept_rows = b.rows - b.full_rows();
    assert(kept_rows * b.width + b.full_rows() * b.width == b.width * b.rows)
        by (nonlinear_arith)
        requires
            kept_rows == b.rows - b.full_rows(),
    ;
}

/// Each of the rows kept below row `r` has an empty cell; the column of one
/// is returned.
pub proof fn lemma_kept_row_has_gap(b: BoardView, r: int, j: int) -> (c: int)
    requires
        b.wf(),
        0 <= r <= b.rows,
        0 <= j < r - b.full_below(r),
    ensures
        0 <= c < b.width,
        0 <= j * b.width + c < b.kept_below(r).len(),
        b.kept_below(r)[j * b.width + c] is None,
    decreases r,
{
    lemma_kept_len(b, r);
    lemma_kept_len(b, r - 1);
    lemma_row_span(b.width, b.rows, r - 1);
    let below = (r - 1) - b.full_below(r - 1);
    assert(0 <= j * b.width && j * b.width + b.width == (j + 1) * b.width) by (nonlinear_arith)
        requires
            0 <= j,
            0 < b.width,
    ;
    if j < below {
        let c = lemma_kept_row_has_gap(b, r - 1, j);
        c
    } else {
        assert(!b.row_full(r - 1));
        assert(j == below);
        let c = choose|c: int| 0 <= c < b.width && !(#[trigger] b.row_tiles(r - 1)[c] is Some);
        assert(b.kept_below(r)[j * b.width + c] == b.row_tiles(r - 1)[c]);
        c
    }
}

/// A board of which every row has an empty cell has no full row.
pub proof fn lemma_gaps_mean_no_full_rows(b: BoardView, r: int)
    requires
        0 <= r,
        forall|j: int| 0 <= j < r ==> !#[trigger] b.row_full(j),
    ensures
        b.full_below(r) == 0,
    decreases r,
{
    if r > 0 {
        lemma_gaps_mean_no_full_rows(b, r - 1);
        assert(!b.row_full(r - 1));
    }
}

/// A board without full rows has an empty cell in every row.
pub proof fn lemma_no_full_rows_mean_gaps(b: BoardView, r: int, j: int)
    requires
        0 <= j < r,
        b.full_below(r) == 0,
    ensures
        !b.row_full(j),
    decreases r,
{
    if j < r - 1 {
        lemma_no_full_rows_mean_gaps(b, r - 1, j);
    }
}

/// After clearing, no row is full.
pub proof fn lemma_cleared_has_no_full_rows(b: BoardView)
    requires
        b.wf(),
    ensures
        b.cleared().full_rows() == 0,
{
    lemma_cleared_wf(b);
    lemma_kept_len(b, b.rows);
    let a = b.cleared();
    let kept_rows = b.rows - b.full_rows();
    assert forall|j: int| 0 <= j < b.rows implies !#[trigger] a.row_full(j) by {
        lemma_row_span(b.width, b.rows, j);
        if j < kept_rows {
            let c = lemma_kept_row_has_gap(b, b.rows, j);
            assert(a.row_tiles(j)[c] == a.tiles[j * b.width + c]);
            assert(a.tiles[j * b.width + c] == b.kept_below(b.rows)[j * b.width + c]);
        } else {
            assert(kept_rows * b.width <= j * b.width) by (nonlinear_arith)
                requires
                    kept_rows <= j,
                    0 < b.width,
            ;
            assert(a.row_tiles(j)[0] == a.tiles[j * b.width]);
            assert(a.tiles[j * b.width] is None);
        }
    }
    lemma_gaps_mean_no_full_rows(a, b.rows);
}

/// An empty board has no full row.
pub proof fn lemma_empty_has_no_full_rows(b: BoardView)
    requires
        b.wf(),
        forall|i: int| 0 <= i < b.tiles.len() ==> b.tiles[i] is None,
    ensures
        b.full_rows() == 0,
{
    assert forall|j: int| 0 <= j < b.rows implies !#[trigger] b.row_full(j) by {
        lemma_row_span(b.width, b.rows, j);
        assert(b.row_tiles(j)[0] == b.tiles[j * b.width]);
    }
    lemma_gaps_mean_no_full_rows(b, b.rows);
}

/// The rows that a settling piece fills are rows in which it has a cell: on
/// a board without full rows, there are below row `r` at most as many full
/// rows after the piece has settled as the piece has cells below that row.
pub proof fn lemma_settled_full_rows(b: BoardView, r: int)
    requires
        b.wf(),
        b.full_rows() == 0,
        0 <= r <= b.rows,
    ensures
        b.settled().full_below(r) <= b.cells_under(r * b.width),
    decreases r,
{
    if r > 0 {
        lemma_settled_full_rows(b, r - 1);
        lemma_row_span(b.width, b.rows, r - 1);
        let a = b.settled();
        if a.row_full(r - 1) {
            lemma_no_full_rows_mean_gaps(b, b.rows, r - 1);
            let c = choose|c: int| 0 <= c < b.width && !(#[trigger] b.row_tiles(r - 1)[c] is Some);
            let i = (r - 1) * b.width + c;
            assert(b.row_tiles(r - 1)[c] == b.tiles[i]);
            assert(a.row_tiles(r - 1)[c] == a.tiles[i]);
            assert(a.row_tiles(r - 1)[c] is Some);
            assert(b.covers(b.loc, b.rot, i));
        }
    } else {
        assert(0 * b.width == 0);
    }
}

/// A settling piece fills at most four rows of a board without full rows.
pub proof fn lemma_settled_fills_at_most_four(b: BoardView)
    requires
        b.wf(),
        b.full_rows() == 0,
    ensures
        b.settled().full_rows() <= 4,
{
    lemma_settled_full_rows(b, b.rows);
}

} // verus!
