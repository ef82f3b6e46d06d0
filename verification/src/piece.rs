use vstd::prelude::*;

verus! {

/// The seven tetrominoes.
#[derive(Clone, Copy, PartialEq, Eq, Debug, Structural)]
pub enum TetrisPieceType {
    I,
    L,
    J,
    O,
    S,
    T,
    Z,
}

/// The four occupied cells of a piece inside its 4x4 bounding box, for a
/// rotation state in `0..4`. A cell `o` lies in column `o % 4` and in row
/// `o / 4` of the box; row 0 is the lowest row. The cells are listed in
/// increasing order. A rotation outside `0..4` reads as rotation 3.
pub open spec fn offsets_of(piece: TetrisPieceType, rot: int) -> (int, int, int, int) {
    match piece {
        TetrisPieceType::I => if rot == 0 {
            (8, 9, 10, 11)
        } else if rot == 1 {
            (2, 6, 10, 14)
        } else if rot == 2 {
            (4, 5, 6, 7)
        } else {
            (1, 5, 9, 13)
        },
        TetrisPieceType::L => if rot == 0 {
            (4, 5, 6, 10)
        } else if rot == 1 {
            (1, 2, 5, 9)
        } else if rot == 2 {
            (0, 4, 5, 6)
        } else {
            (1, 5, 8, 9)
        },
        TetrisPieceType::J => if rot == 0 {
            (4, 5, 6, 8)
        } else if rot == 1 {
            (1, 5, 9, 10)
        } else if rot == 2 {
            (2, 4, 5, 6)
        } else {
            (0, 1, 5, 9)
        },
        TetrisPieceType::O => (1, 2, 5, 6),
        TetrisPieceType::S => if rot == 0 {
            (4, 5, 9, 10)
        } else if rot == 1 {
            (2, 5, 6, 9)
        } else if rot == 2 {
            (0, 1, 5, 6)
        } else {
            (1, 4, 5, 8)
        },
        TetrisPieceType::T => if rot == 0 {
            (4, 5, 6, 9)
        } else if rot == 1 {
            (1, 5, 6, 9)
        } else if rot == 2 {
            (1, 4, 5, 6)
        } else {
            (1, 4, 5, 9)
        },
        TetrisPieceType::Z => if rot == 0 {
            (5, 6, 8, 9)
        } else if rot == 1 {
            (1, 5, 6, 10)
        } else if rot == 2 {
            (1, 2, 4, 5)
        } else {
            (0, 4, 5, 9)
        },
    }
}

/// The `k`-th occupied cell of a piece (`k` in `0..4`).
pub open spec fn cell_offset(piece: TetrisPieceType, rot: int, k: int) -> int {
    let t = offsets_of(piece, rot);
    if k == 0 {
        t.0
    } else if k == 1 {
        t.1
    } else if k == 2 {
        t.2
    } else {
        t.3
    }
}

/// The four occupied cells as a sequence.
pub open spec fn cell_offsets(piece: TetrisPieceType, rot: int) -> Seq<int> {
    Seq::new(4, |k: int| cell_offset(piece, rot, k))
}

/// The least of four numbers.
pub open spec fn min4(a: int, b: int, c: int, d: int) -> int {
    let ab = if a <= b { a } else { b };
    let cd = if c <= d { c } else { d };
    if ab <= cd { ab } else { cd }
}

/// The greatest of four numbers.
pub open spec fn max4(a: int, b: int, c: int, d: int) -> int {
    let ab = if a >= b { a } else { b };
    let cd = if c >= d { c } else { d };
    if ab >= cd { ab } else { cd }
}

/// The leftmost column of the box that the piece occupies.
pub open spec fn left_extent(piece: TetrisPieceType, rot: int) -> int {
    let t = offsets_of(piece, rot);
    min4(t.0 % 4, t.1 % 4, t.2 % 4, t.3 % 4)
}

/// The rightmost column of the box that the piece occupies.
pub open spec fn right_extent(piece: TetrisPieceType, rot: int) -> int {
    let t = offsets_of(piece, rot);
    max4(t.0 % 4, t.1 % 4, t.2 % 4, t.3 % 4)
}

/// The lowest row of the box that the piece occupies.
pub open spec fn bottom_extent(piece: TetrisPieceType, rot: int) -> int {
    let t = offsets_of(piece, rot);
    min4(t.0 / 4, t.1 / 4, t.2 / 4, t.3 / 4)
}

/// The highest row of the box that the piece occupies.
pub open spec fn top_extent(piece: TetrisPieceType, rot: int) -> int {
    let t = offsets_of(piece, rot);
    max4(t.0 / 4, t.1 / 4, t.2 / 4, t.3 / 4)
}

/// The wall-kick candidates tried, in this order, when the plain rotation
/// into state `rot` does not fit: `(dx, dy)` moves the piece `dx` columns to
/// the right and `dy` rows up. The I piece has a table of its own, the O
/// piece has none, the other five share one.
pub open spec fn kick_offsets(piece: TetrisPieceType, rot: int) -> Seq<(int, int)> {
    match piece {
        TetrisPieceType::O => Seq::empty(),
        TetrisPieceType::I => if rot == 0 {
            seq![(0int, 0int), (1, 0), (-2, 0), (1, -2), (-2, 1)]
        } else if rot == 1 {
            seq![(-2int, 0int), (1, 0), (-2, -1), (1, 2)]
        } else if rot == 2 {
            seq![(0int, 0int), (-1, 0), (2, 0), (-1, 2), (2, -1)]
        } else {
            seq![(0int, 0int), (2, 0), (-1, 0), (2, 1), (-1, -2)]
        },
        _ => if rot == 0 {
            seq![(0int, 0int), (-1, 0), (-1, -1), (0, 2), (-1, 2)]
        } else if rot == 1 {
            seq![(-1int, 0int), (-1, 1), (0, -2), (-1, -2)]
        } else if rot == 2 {
            seq![(0int, 0int), (1, 0), (1, -1), (0, 2), (1, 2)]
        } else {
            seq![(0int, 0int), (1, 0), (1, 1), (0, -2), (1, -2)]
        },
    }
}

/// The piece that an integer stands for: `0..7` in the order I, J, L, O, S,
/// T, Z, larger values by their remainder. A negative value that is no
/// multiple of 7 stands for T.
pub open spec fn piece_of_int(val: int) -> TetrisPieceType {
    if val % 7 == 0 {
        TetrisPieceType::I
    } else if val < 0 {
        TetrisPieceType::T
    } else if val % 7 == 1 {
        TetrisPieceType::J
    } else if val % 7 == 2 {
        TetrisPieceType::L
    } else if val % 7 == 3 {
        TetrisPieceType::O
    } else if val % 7 == 4 {
        TetrisPieceType::S
    } else if val % 7 == 5 {
        TetrisPieceType::T
    } else {
        TetrisPieceType::Z
    }
}

/// The one-letter name of a piece.
pub open spec fn piece_name(piece: TetrisPieceType) -> Seq<char> {
    match piece {
        TetrisPieceType::I => "I"@,
        TetrisPieceType::J => "J"@,
        TetrisPieceType::L => "L"@,
        TetrisPieceType::O => "O"@,
        TetrisPieceType::S => "S"@,
        TetrisPieceType::T => "T"@,
        TetrisPieceType::Z => "Z"@,
    }
}

impl TetrisPieceType {
    /// The four occupied cells in rotation state `rot % 4`.
    pub fn get_idx_arr(&self, rot: usize) -> (r: [i64; 4])
        ensures
            forall|k: int| 0 <= k < 4 ==> #[trigger] r[k] == cell_offset(*self, (rot % 4) as int, k),
            forall|k: int| 0 <= k < 4 ==> 0 <= #[trigger] r[k] < 16,
            forall|j: int, k: int| 0 <= j < k < 4 ==> #[trigger] r[j] != #[trigger] r[k],
    {
        match rot % 4 {
            2 => match self {
                Self::I => [4, 5, 6, 7],
                Self::L => [0, 4, 5, 6],
                Self::J => [2, 4, 5, 6],
                Self::O => [1, 2, 5, 6],
                Self::Z => [1, 2, 4, 5],
                Self::T => [1, 4, 5, 6],
                Self::S => [0, 1, 5, 6],
            },
            1 => match self {
                Self::I => [2, 6, 10, 14],
                Self::L => [1, 2, 5, 9],
                Self::J => [1, 5, 9, 10],
                Self::O => [1, 2, 5, 6],
                Self::S => [2, 5, 6, 9],
                Self::T => [1, 5, 6, 9],
                Self::Z => [1, 5, 6, 10],
            },
            0 => match self {
                Self::I => [8, 9, 10, 11],
                Self::L => [4, 5, 6, 10],
                Self::J => [4, 5, 6, 8],
                Self::O => [1, 2, 5, 6],
                Self::S => [4, 5, 9, 10],
                Self::T => [4, 5, 6, 9],
                Self::Z => [5, 6, 8, 9],
            },
            _ => match self {
                Self::I => [1, 5, 9, 13],
                Self::L => [1, 5, 8, 9],
                Self::J => [0, 1, 5, 9],
                Self::O => [1, 2, 5, 6],
                Self::S => [1, 4, 5, 8],
                Self::T => [1, 4, 5, 9],
                Self::Z => [0, 4, 5, 9],
            },
        }
    }

    /// The columns of the box that the piece spans: the first and the last,
    /// both of which it occupies.
    pub fn horiz_extents(&self, rot: usize) -> (r: (i64, i64))
        ensures
            r.0 == left_extent(*self, (rot % 4) as int),
            r.1 == right_extent(*self, (rot % 4) as int),
    {
        match rot % 4 {
            2 => match self {
                Self::I => (0, 3),
                Self::L | Self::J | Self::Z | Self::T | Self::S => (0, 2),
                Self::O => (1, 2),
            },
            1 => match self {
                Self::I => (2, 2),
                Self::L | Self::J | Self::O | Self::S | Self::T | Self::Z => (1, 2),
            },
            0 => match self {
                Self::I => (0, 3),
                Self::L | Self::J | Self::S | Self::T | Self::Z => (0, 2),
                Self::O => (1, 2),
            },
            _ => match self {
                Self::I => (1, 1),
                Self::L | Self::J | Self::S | Self::T | Self::Z => (0, 1),
                Self::O => (1, 2),
            },
        }
    }

    /// The rows of the box that the piece spans: the lowest and the highest,
    /// both of which it occupies.
    pub fn vert_extents(&self, rot: usize) -> (r: (i64, i64))
        ensures
            r.0 == bottom_extent(*self, (rot % 4) as int),
            r.1 == top_extent(*self, (rot % 4) as int),
    {
        match rot % 4 {
            1 => match self {
                Self::I => (0, 3),
                Self::L | Self::J | Self::S | Self::T | Self::Z => (0, 2),
                Self::O => (0, 1),
            },
            0 => match self {
                Self::I => (2, 2),
                Self::L | Self::J | Self::S | Self::T | Self::Z => (1, 2),
                Self::O => (0, 1),
            },
            3 => match self {
                Self::I => (0, 3),
                Self::L | Self::J | Self::S | Self::T | Self::Z => (0, 2),
                Self::O => (0, 1),
            },
            _ => match self {
                Self::I => (1, 1),
                Self::L | Self::J | Self::S | Self::T | Self::Z | Self::O => (0, 1),
            },
        }
    }

    /// The wall-kick candidates for a rotation into state `rot % 4`, in the
    /// order in which they are tried.
    pub fn secondary_tests(&self, rot: usize) -> (r: Vec<(i64, i64)>)
        ensures
            r@.len() == kick_offsets(*self, (rot % 4) as int).len(),
            forall|i: int|
                0 <= i < r@.len() ==> (#[trigger] r@[i]).0 == kick_offsets(
                    *self,
                    (rot % 4) as int,
                )[i].0 && r@[i].1 == kick_offsets(*self, (rot % 4) as int)[i].1,
    {
        match rot % 4 {
            1 => match self {
                Self::I => vec![(-2, 0), (1, 0), (-2, -1), (1, 2)],
                Self::O => vec![],
                Self::J | Self::L | Self::S | Self::T | Self::Z => vec![
                    (-1, 0),
                    (-1, 1),
                    (0, -2),
                    (-1, -2),
                ],
            },
            0 => match self {
                Self::I => vec![(0, 0), (1, 0), (-2, 0), (1, -2), (-2, 1)],
                Self::O => vec![],
                Self::J | Self::L | Self::S | Self::T | Self::Z => vec![
                    (0, 0),
                    (-1, 0),
                    (-1, -1),
                    (0, 2),
                    (-1, 2),
                ],
            },
            3 => match self {
                Self::I => vec![(0, 0), (2, 0), (-1, 0), (2, 1), (-1, -2)],
                Self::O => vec![],
                Self::J | Self::L | Self::S | Self::T | Self::Z => vec![
                    (0, 0),
                    (1, 0),
                    (1, 1),
                    (0, -2),
                    (1, -2),
                ],
            },
            _ => match self {
                Self::I => vec![(0, 0), (-1, 0), (2, 0), (-1, 2), (2, -1)],
                Self::O => vec![],
                Self::J | Self::L | Self::S | Self::T | Self::Z => vec![
                    (0, 0),
                    (1, 0),
                    (1, -1),
                    (0, 2),
                    (1, 2),
                ],
            },
        }
    }

    /// Whether the piece, in rotation state `rot % 4`, occupies cell `cell`
    /// of its box.
    pub fn fills(&self, rot: usize, cell: i64) -> (b: bool)
        ensures
            b == exists|k: int|
                0 <= k < 4 && #[trigger] cell_offset(*self, (rot % 4) as int, k) == cell,
    {
        let cells = self.get_idx_arr(rot);
        cells[0] == cell || cells[1] == cell || cells[2] == cell || cells[3] == cell
    }

    /// The letter that names the piece.
    pub fn to_string(&self) -> (s: String)
        ensures
            s@ == piece_name(*self),
    {
        match self {
            Self::I => "I".to_owned(),
            Self::J => "J".to_owned(),
            Self::L => "L".to_owned(),
            Self::O => "O".to_owned(),
            Self::S => "S".to_owned(),
            Self::T => "T".to_owned(),
            Self::Z => "Z".to_owned(),
        }
    }

    /// The piece that `val` stands for.
    pub fn from_int(val: i32) -> (p: Self)
        ensures
            p == piece_of_int(val as int),
    {
        match val % 7 {
            0 => Self::I,
            1 => Self::J,
            2 => Self::L,
            3 => Self::O,
            4 => Self::S,
            5 => Self::T,
            6 => Self::Z,
            _ => Self::T,
        }
    }
}

} // verus!
