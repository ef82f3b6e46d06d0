use vstd::prelude::*;

verus! {

/// The points that clearing `cleared` rows at once is worth at level 1.
pub open spec fn line_score(cleared: int) -> int {
    if cleared == 1 {
        100
    } else if cleared == 2 {
        300
    } else if cleared == 3 {
        500
    } else if cleared == 4 {
        800
    } else {
        0
    }
}

/// The level that a number of cleared lines gives: one more for every ten.
pub open spec fn level_of(lines: int) -> int {
    lines / 10 + 1
}

/// The points that a hard drop through `rows` rows is worth.
pub open spec fn drop_score(rows: int) -> int {
    2 * rows
}

/// The points for clearing `cleared` rows at once at `level`.
pub fn line_award(cleared: u32, level: u32) -> (points: u32)
    requires
        cleared <= 4,
        800 * level <= u32::MAX,
    ensures
        points == line_score(cleared as int) * level,
{
    let table: [u32; 5] = [0, 100, 300, 500, 800];
    let base = table[cleared as usize];
    assert(base * level <= 800 * level) by (nonlinear_arith)
        requires
            0 <= base <= 800,
            0 <= level,
    ;
    base * level
}

/// The level after `lines` lines have been cleared.
pub fn level_for_lines(lines: u32) -> (level: u32)
    ensures
        level == level_of(lines as int),
{
    lines / 10 + 1
}

/// The points for a hard drop through `rows` rows.
pub fn drop_award(rows: u32) -> (points: u32)
    requires
        2 * rows <= u32::MAX,
    ensures
        points == drop_score(rows as int),
{
    rows * 2
}

} // verus!
