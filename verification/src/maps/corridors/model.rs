//! The mathematical description of a corridor level: what every cell is, as a function
//! of the parameters and of the values drawn at random.

use vstd::prelude::*;
use crate::config::Cell;
use crate::direction::Direction;
use super::heights::{is_wall_height, UNIT};

verus! {

/// The parameters of a corridor level, as mathematical integers. Variances are in
/// units of `1 / UNIT`.
pub struct Parameters {
    pub width: int,
    pub height: int,
    pub corridor_width: int,
    pub corridor_height: int,
    pub top_offset: int,
    pub bottom_offset: int,
    pub variance: int,
}

impl Parameters {
    /// Whether no size is negative and the variance is a share: at most one.
    pub open spec fn well_formed(self) -> bool {
        &&& 0 <= self.width
        &&& 0 <= self.height
        &&& 0 <= self.corridor_width
        &&& 0 <= self.corridor_height
        &&& 0 <= self.variance <= UNIT
    }
}

/// The two rows of walls: one hangs from the top edge, one stands on the bottom edge.
#[derive(Clone, Copy, Debug, PartialEq, Eq, Structural)]
pub enum Side {
    Top,
    Bottom,
}

/// The values drawn at random for a level, one entry per column in each table.
///
/// `top` and `bottom` hold the wall height drawn for a column; an entry counts only
/// where the height is drawn at all (see [`memoized`]). `gap` holds the row that is
/// kept free in a column should its walls block it.
#[derive(Debug)]
pub struct ColumnDraws {
    pub top: Vec<u32>,
    pub bottom: Vec<u32>,
    pub gap: Vec<u32>,
}

impl ColumnDraws {
    /// The table of wall heights of one side.
    pub open spec fn heights(&self, side: Side) -> Seq<u32> {
        match side {
            Side::Top => self.top@,
            Side::Bottom => self.bottom@,
        }
    }

    /// Every table has one entry per column.
    pub open spec fn covers(&self, width: int) -> bool {
        &&& self.top@.len() == width
        &&& self.bottom@.len() == width
        &&& self.gap@.len() == width
    }
}

/// The horizontal offset of a side's walls.
pub open spec fn offset(p: Parameters, side: Side) -> int {
    match side {
        Side::Top => p.top_offset,
        Side::Bottom => p.bottom_offset,
    }
}

/// Whether `(x, y)` lies on the edge of the grid.
pub open spec fn is_border(p: Parameters, x: int, y: int) -> bool {
    x == 0 || x == p.width - 1 || y == 0 || y == p.height - 1
}

/// Whether column `x` carries a wall of the given side: walls stand one corridor width
/// apart, shifted by the side's offset, and keep clear of both ends of the grid.
pub open spec fn wall_column(p: Parameters, side: Side, x: int) -> bool {
    &&& (x - offset(p, side)) % (p.corridor_width + 1) == 0
    &&& 2 < x < p.width - p.corridor_width - 1
}

/// Whether a wall of height `h` of the given side reaches row `y`.
pub open spec fn wall_covers(p: Parameters, side: Side, h: int, y: int) -> bool {
    match side {
        Side::Top => y < h + 1,
        Side::Bottom => y > p.height - h - 2,
    }
}

/// The cell at `(x, y)` after the sweep, in a column whose walls have the heights `top`
/// and `bottom`.
pub open spec fn classify(p: Parameters, x: int, top: int, bottom: int, y: int) -> Cell {
    if is_border(p, x, y) || (wall_column(p, Side::Top, x) && wall_covers(p, Side::Top, top, y))
        || (wall_column(p, Side::Bottom, x) && wall_covers(p, Side::Bottom, bottom, y)) {
        Cell::Wall
    } else {
        Cell::Empty
    }
}

/// Whether the sweep leaves no empty cell in column `x`.
pub open spec fn column_blocked(p: Parameters, x: int, top: int, bottom: int) -> bool {
    forall|y: int| 0 <= y < p.height ==> #[trigger] classify(p, x, top, bottom, y) == Cell::Wall
}

/// Whether the sweep draws a height for the top wall of column `x`: it does so when it
/// meets the first cell of a wall column that is not on the border.
pub open spec fn draws_top(p: Parameters, x: int) -> bool {
    wall_column(p, Side::Top, x) && p.height >= 3
}

/// Whether the sweep draws a height for the bottom wall of column `x`: it does so when
/// it meets the first cell of a wall column that is neither on the border nor in the
/// top wall of height `top`.
pub open spec fn draws_bottom(p: Parameters, x: int, top: int) -> bool {
    &&& wall_column(p, Side::Bottom, x)
    &&& p.height >= 3
    &&& !(wall_column(p, Side::Top, x) && top >= p.height - 2)
}

/// Whether a wall height of the given side was drawn, and kept, for column `x`.
pub open spec fn memoized(p: Parameters, d: ColumnDraws, side: Side, x: int) -> bool {
    match side {
        Side::Top => draws_top(p, x),
        Side::Bottom => draws_bottom(p, x, d.top@[x] as int),
    }
}

/// The cell at `(x, y)` after the sweep.
pub open spec fn swept(p: Parameters, d: ColumnDraws, x: int, y: int) -> Cell {
    classify(p, x, d.top@[x] as int, d.bottom@[x] as int, y)
}

/// Whether the sweep leaves no empty cell in column `x`.
pub open spec fn blocked(p: Parameters, d: ColumnDraws, x: int) -> bool {
    column_blocked(p, x, d.top@[x] as int, d.bottom@[x] as int)
}

/// Whether `(x, y)` is the cell that is forced open because the walls block column `x`.
/// The columns on the left and right edge are never opened.
pub open spec fn gap_forced(p: Parameters, d: ColumnDraws, x: int, y: int) -> bool {
    0 < x < p.width - 1 && blocked(p, d, x) && y == d.gap@[x]
}

/// The cell at `(x, y)` after the sweep and the forcing of gaps.
pub open spec fn carved(p: Parameters, d: ColumnDraws, x: int, y: int) -> Cell {
    if gap_forced(p, d, x, y) {
        Cell::Empty
    } else {
        swept(p, d, x, y)
    }
}

/// The row just past the end of a wall of height `h`, where its notch is cut.
pub open spec fn notch_row(p: Parameters, side: Side, h: int) -> int {
    match side {
        Side::Top => h + 1,
        Side::Bottom => p.height - h - 2,
    }
}

/// The row of a side's spawn markers.
pub open spec fn marker_row(p: Parameters, side: Side) -> int {
    match side {
        Side::Top => 2,
        Side::Bottom => p.height - 3,
    }
}

/// The spawn marker of a side: what starts there faces away from the side's edge.
pub open spec fn marker(side: Side) -> Cell {
    match side {
        Side::Top => Cell::Spawn(Direction::Down),
        Side::Bottom => Cell::Spawn(Direction::Up),
    }
}

/// The notch row of the wall of the given side in column `x`.
pub open spec fn notch_row_at(p: Parameters, d: ColumnDraws, side: Side, x: int) -> int {
    notch_row(p, side, d.heights(side)[x] as int)
}

/// Whether the wall of the given side in column `x` gets a notch and a spawn marker:
/// its height was drawn, and its notch row is neither the first nor the last row.
pub open spec fn notched(p: Parameters, d: ColumnDraws, side: Side, x: int) -> bool {
    &&& memoized(p, d, side, x)
    &&& notch_row_at(p, d, side, x) != 0
    &&& notch_row_at(p, d, side, x) != p.height - 1
}

/// What the notches and markers of the walls in the columns below `limit` leave at
/// `(x, y)`, if they write there at all.
///
/// The walls are taken from left to right. Each one that is notched empties the three
/// cells of its notch row in its own and in the two neighbouring columns, then marks
/// the cell of the marker row in the column to its right. Where several writes meet,
/// the last one stays.
pub open spec fn pass_write(
    p: Parameters,
    d: ColumnDraws,
    side: Side,
    limit: int,
    x: int,
    y: int,
) -> Option<Cell> {
    if x + 1 < limit && notched(p, d, side, x + 1) && notch_row_at(p, d, side, x + 1) == y {
        Some(Cell::Empty)
    } else if x < limit && notched(p, d, side, x) && notch_row_at(p, d, side, x) == y {
        Some(Cell::Empty)
    } else if 0 <= x - 1 < limit && notched(p, d, side, x - 1) && y == marker_row(p, side) {
        Some(marker(side))
    } else if 0 <= x - 1 < limit && notched(p, d, side, x - 1) && notch_row_at(p, d, side, x - 1)
        == y {
        Some(Cell::Empty)
    } else {
        None
    }
}

/// The cell at `(x, y)` of the finished level: what the pass over the top walls left
/// there, else what the pass over the bottom walls left there, else what the sweep and
/// the forcing of gaps left there.
pub open spec fn cell_at(p: Parameters, d: ColumnDraws, x: int, y: int) -> Cell {
    match pass_write(p, d, Side::Top, p.width, x, y) {
        Some(cell) => cell,
        None => match pass_write(p, d, Side::Bottom, p.width, x, y) {
            Some(cell) => cell,
            None => carved(p, d, x, y),
        },
    }
}

/// The finished level: a cell for every coordinate of the grid, and for no other.
pub open spec fn corridor_cells(p: Parameters, d: ColumnDraws) -> Map<(int, int), Cell> {
    Map::new(
        |k: (int, int)| 0 <= k.0 < p.width && 0 <= k.1 < p.height,
        |k: (int, int)| cell_at(p, d, k.0, k.1),
    )
}

/// Whether a new gap row is drawn for column `x`: the walls block it, and they did not
/// block the column to its left.
pub open spec fn redraws_gap(p: Parameters, d: ColumnDraws, x: int) -> bool {
    0 < x < p.width - 1 && blocked(p, d, x) && !blocked(p, d, x - 1)
}

/// Whether the first `limit` entries of the tables are what a sweep can draw.
///
/// A wall height that is drawn is one that some uniform sample gives. A gap row that is
/// drawn lies strictly between the first and the last row; where none is drawn, the row
/// of the column to the left is kept, and the leftmost column starts with row 1.
pub open spec fn valid_prefix(p: Parameters, d: ColumnDraws, limit: int) -> bool {
    &&& forall|x: int|
        0 <= x < limit && #[trigger] memoized(p, d, Side::Top, x) ==> is_wall_height(
            p.corridor_height,
            p.variance,
            d.top@[x] as int,
        )
    &&& forall|x: int|
        0 <= x < limit && #[trigger] memoized(p, d, Side::Bottom, x) ==> is_wall_height(
            p.corridor_height,
            p.variance,
            d.bottom@[x] as int,
        )
    &&& forall|x: int|
        0 <= x < limit ==> if #[trigger] redraws_gap(p, d, x) {
            1 <= d.gap@[x] <= p.height - 2
        } else if x == 0 {
            d.gap@[x] == 1
        } else {
            d.gap@[x] == d.gap@[x - 1]
        }
}

/// Whether the tables are what a sweep over all columns can draw.
pub open spec fn valid_draws(p: Parameters, d: ColumnDraws) -> bool {
    d.covers(p.width) && valid_prefix(p, d, p.width)
}

} // verus!
