//! What holds of every corridor level, whatever values were drawn.

use vstd::prelude::*;
use vstd::arithmetic::div_mod::{
    lemma_fundamental_div_mod, lemma_mod_bound, lemma_mod_multiples_basic,
};
use crate::config::{grid, Cell};
use crate::direction::Direction;
use super::heights::{lemma_wall_height_bounds, wall_height_of, UNIT};
use super::model::{
    blocked, carved, cell_at, classify, corridor_cells, draws_bottom, draws_top, is_border,
    marker, marker_row, memoized, notch_row_at, notched, offset, pass_write, redraws_gap, swept,
    valid_draws, valid_prefix, wall_column, wall_covers, ColumnDraws, Parameters, Side,
};

verus! {

/// A level has a cell for every coordinate of its grid, and for no other.
pub proof fn lemma_covers_grid(p: Parameters, d: ColumnDraws)
    ensures
        corridor_cells(p, d).dom() == grid(p.width, p.height),
{
    assert(corridor_cells(p, d).dom() =~= grid(p.width, p.height));
}

/// A wall height is drawn exactly where the sweep has to look at it: for the top, where
/// the column has a cell off the border; for the bottom, where the column has a cell
/// off the border that the top wall does not reach.
pub proof fn lemma_drawn_when_consulted(p: Parameters, x: int, top: int)
    requires
        0 <= p.corridor_width,
    ensures
        draws_top(p, x) <==> wall_column(p, Side::Top, x) && exists|y: int|
            0 <= y < p.height && !#[trigger] is_border(p, x, y),
        draws_bottom(p, x, top) <==> wall_column(p, Side::Bottom, x) && exists|y: int|
            0 <= y < p.height && !#[trigger] is_border(p, x, y) && !(wall_column(p, Side::Top, x)
                && wall_covers(p, Side::Top, top, y)),
{
    if draws_top(p, x) {
        assert(!is_border(p, x, 1));
    }
    if draws_bottom(p, x, top) {
        assert(!is_border(p, x, p.height - 2));
    }
}

/// A wall height that is drawn is at most the corridor's height, and is exactly that
/// height where there is no variance.
pub proof fn lemma_drawn_height(p: Parameters, d: ColumnDraws, side: Side, x: int)
    requires
        p.well_formed(),
        valid_draws(p, d),
        0 <= x < p.width,
        memoized(p, d, side, x),
    ensures
        d.heights(side)[x] <= p.corridor_height,
        p.variance == 0 ==> d.heights(side)[x] == p.corridor_height,
{
    let h = d.heights(side)[x] as int;
    let fraction = choose|fraction: int|
        0 <= fraction < UNIT && h == #[trigger] wall_height_of(
            p.corridor_height,
            p.variance,
            fraction,
        );
    lemma_wall_height_bounds(p.corridor_height, p.variance, fraction);
}

/// Every gap row is row 1 or a row strictly between the first and the last.
pub proof fn lemma_gap_rows(p: Parameters, d: ColumnDraws, limit: int, x: int)
    requires
        valid_prefix(p, d, limit),
        0 <= x < limit,
    ensures
        d.gap@[x] == 1 || 1 <= d.gap@[x] <= p.height - 2,
    decreases x,
{
    if !redraws_gap(p, d, x) && x > 0 {
        lemma_gap_rows(p, d, limit, x - 1);
    }
}

/// Whether two sets of tables hold the same value wherever the sweep draws one: the
/// height of a wall where it is drawn, the gap row of an inner column that is blocked.
pub open spec fn same_drawn_values(p: Parameters, d1: ColumnDraws, d2: ColumnDraws) -> bool {
    forall|x: int|
        0 <= x < p.width ==> {
            &&& #[trigger] memoized(p, d1, Side::Top, x) ==> d1.top@[x] == d2.top@[x]
            &&& memoized(p, d1, Side::Bottom, x) ==> d1.bottom@[x] == d2.bottom@[x]
            &&& 0 < x < p.width - 1 && blocked(p, d1, x) ==> d1.gap@[x] == d2.gap@[x]
        }
}

/// One column is swept alike under two sets of tables that hold the same drawn values:
/// a height that is not drawn belongs to no wall that reaches a cell off the border.
proof fn lemma_same_column(p: Parameters, d1: ColumnDraws, d2: ColumnDraws, x: int)
    requires
        0 <= p.corridor_width,
        same_drawn_values(p, d1, d2),
        0 <= x < p.width,
    ensures
        forall|y: int| 0 <= y < p.height ==> #[trigger] swept(p, d1, x, y) == swept(p, d2, x, y),
        blocked(p, d1, x) == blocked(p, d2, x),
        forall|side: Side| #[trigger] memoized(p, d1, side, x) == memoized(p, d2, side, x),
        forall|side: Side|
            memoized(p, d1, side, x) ==> #[trigger] notch_row_at(p, d1, side, x) == notch_row_at(
                p,
                d2,
                side,
                x,
            ),
{
    let (top1, bottom1) = (d1.top@[x] as int, d1.bottom@[x] as int);
    let (top2, bottom2) = (d2.top@[x] as int, d2.bottom@[x] as int);
    assert(memoized(p, d1, Side::Top, x) ==> top1 == top2);
    assert(memoized(p, d1, Side::Bottom, x) ==> bottom1 == bottom2);
    assert forall|y: int| 0 <= y < p.height implies #[trigger] classify(p, x, top1, bottom1, y)
        == classify(p, x, top2, bottom2, y) by {}
    assert forall|y: int| 0 <= y < p.height implies classify(p, x, top1, bottom1, y)
        == #[trigger] classify(p, x, top2, bottom2, y) by {}
    assert forall|y: int| 0 <= y < p.height implies #[trigger] swept(p, d1, x, y) == swept(
        p,
        d2,
        x,
        y,
    ) by {
        assert(classify(p, x, top1, bottom1, y) == classify(p, x, top2, bottom2, y));
    }
    assert forall|side: Side| #[trigger] memoized(p, d1, side, x) == memoized(p, d2, side, x) by {
        assert(side == Side::Top || side == Side::Bottom);
    }
    assert forall|side: Side| memoized(p, d1, side, x) implies #[trigger] notch_row_at(
        p,
        d1,
        side,
        x,
    ) == notch_row_at(p, d2, side, x) by {
        assert(side == Side::Top || side == Side::Bottom);
    }
}

/// The level depends on nothing but the parameters and the values that the sweep
/// draws: two sets of tables that hold the same drawn values describe the same level,
/// whatever else they hold.
pub proof fn lemma_drawn_values_determine_level(p: Parameters, d1: ColumnDraws, d2: ColumnDraws)
    requires
        0 <= p.corridor_width,
        same_drawn_values(p, d1, d2),
    ensures
        corridor_cells(p, d1) == corridor_cells(p, d2),
{
    assert forall|x: int, y: int| 0 <= x < p.width && 0 <= y < p.height implies cell_at(
        p,
        d1,
        x,
        y,
    ) == cell_at(p, d2, x, y) by {
        lemma_same_column(p, d1, d2, x);
        if x + 1 < p.width {
            lemma_same_column(p, d1, d2, x + 1);
        }
        if 0 <= x - 1 {
            lemma_same_column(p, d1, d2, x - 1);
        }
        assert(swept(p, d1, x, y) == swept(p, d2, x, y));
        assert(carved(p, d1, x, y) == carved(p, d2, x, y));
        assert forall|side: Side| #[trigger]
            pass_write(p, d1, side, p.width, x, y) == pass_write(p, d2, side, p.width, x, y) by {
            assert(memoized(p, d1, side, x) == memoized(p, d2, side, x));
            assert(memoized(p, d1, side, x) ==> notch_row_at(p, d1, side, x) == notch_row_at(
                p,
                d2,
                side,
                x,
            ));
        }
        assert(pass_write(p, d1, Side::Top, p.width, x, y) == pass_write(
            p,
            d2,
            Side::Top,
            p.width,
            x,
            y,
        ));
        assert(pass_write(p, d1, Side::Bottom, p.width, x, y) == pass_write(
            p,
            d2,
            Side::Bottom,
            p.width,
            x,
            y,
        ));
    }
    assert(corridor_cells(p, d1) =~= corridor_cells(p, d2));
}

/// The notches and markers never put a wall anywhere.
pub proof fn lemma_passes_leave_no_wall(p: Parameters, d: ColumnDraws, x: int, y: int)
    requires
        carved(p, d, x, y) != Cell::Wall,
    ensures
        cell_at(p, d, x, y) != Cell::Wall,
{
}

/// Whether column `x` of a level of the given height can be passed: some cell of it, on
/// a row that is neither the first nor the last, is not a wall.
pub open spec fn passable(cells: Map<(int, int), Cell>, height: int, x: int) -> bool {
    exists|y: int| 0 < y < height - 1 && #[trigger] cells[(x, y)] != Cell::Wall
}

/// In a grid of three or more rows, every column but the first and the last can be
/// passed.
pub proof fn lemma_traversable(p: Parameters, d: ColumnDraws, x: int)
    requires
        valid_draws(p, d),
        p.height >= 3,
        0 < x < p.width - 1,
    ensures
        passable(corridor_cells(p, d), p.height, x),
{
    let y = if blocked(p, d, x) {
        lemma_gap_rows(p, d, p.width, x);
        d.gap@[x] as int
    } else {
        choose|y: int|
            0 <= y < p.height && #[trigger] classify(
                p,
                x,
                d.top@[x] as int,
                d.bottom@[x] as int,
                y,
            ) != Cell::Wall
    };
    assert(0 < y < p.height - 1);
    assert(carved(p, d, x, y) != Cell::Wall);
    lemma_passes_leave_no_wall(p, d, x, y);
    assert(corridor_cells(p, d)[(x, y)] == cell_at(p, d, x, y));
}

/// Whether no wall of the level gets a notch and a spawn marker.
pub open spec fn unnotched(p: Parameters, d: ColumnDraws) -> bool {
    forall|side: Side, x: int| 0 <= x < p.width ==> !#[trigger] notched(p, d, side, x)
}

/// Every cell on the edge of the grid is a wall.
///
/// This holds where the corridors are at least one column wide and the grid is high
/// enough for what is cut into it: a grid of two rows, unless it has no inner column,
/// gets its gaps on the last row, and a grid of three rows gets its spawn markers on
/// the first and on the last row.
pub proof fn lemma_border_is_wall(p: Parameters, d: ColumnDraws, x: int, y: int)
    requires
        valid_draws(p, d),
        p.corridor_width >= 1,
        p.height == 2 ==> p.width <= 2,
        p.height == 3 ==> unnotched(p, d),
        0 <= x < p.width,
        0 <= y < p.height,
        is_border(p, x, y),
    ensures
        corridor_cells(p, d)[(x, y)] == Cell::Wall,
{
    if 0 < x < p.width - 1 {
        lemma_gap_rows(p, d, p.width, x);
    }
    assert(carved(p, d, x, y) == Cell::Wall);
    assert(pass_write(p, d, Side::Top, p.width, x, y) is None);
    assert(pass_write(p, d, Side::Bottom, p.width, x, y) is None);
}

/// A spawn marker lies on the marker row of its side and faces away from that side's
/// edge; no cell is a marker that faces left or right.
pub proof fn lemma_spawn_rows(p: Parameters, d: ColumnDraws, x: int, y: int, facing: Direction)
    requires
        cell_at(p, d, x, y) == Cell::Spawn(facing),
    ensures
        facing == Direction::Down || facing == Direction::Up,
        facing == Direction::Down ==> y == marker_row(p, Side::Top),
        facing == Direction::Up ==> y == marker_row(p, Side::Bottom),
{
}

/// The last wall of a side that is notched, among the columns below `limit`; `-1` if
/// there is none.
pub open spec fn last_notched(p: Parameters, d: ColumnDraws, side: Side, limit: int) -> int
    decreases limit,
{
    if limit <= 0 {
        -1
    } else if notched(p, d, side, limit - 1) {
        limit - 1
    } else {
        last_notched(p, d, side, limit - 1)
    }
}

/// `last_notched` finds a notched wall if there is one below `limit`, and no notched
/// wall stands between it and `limit`.
pub proof fn lemma_last_notched(p: Parameters, d: ColumnDraws, side: Side, limit: int)
    ensures
        -1 <= last_notched(p, d, side, limit),
        last_notched(p, d, side, limit) >= 0 ==> last_notched(p, d, side, limit) < limit
            && notched(p, d, side, last_notched(p, d, side, limit)),
        forall|x: int|
            last_notched(p, d, side, limit) < x < limit && 0 <= x ==> !#[trigger] notched(
                p,
                d,
                side,
                x,
            ),
    decreases limit,
{
    if limit > 0 && !notched(p, d, side, limit - 1) {
        lemma_last_notched(p, d, side, limit - 1);
    }
}

/// Whether some cell of the grid is `cell`.
pub open spec fn holds(cells: Map<(int, int), Cell>, p: Parameters, cell: Cell) -> bool {
    exists|x: int, y: int| 0 <= x < p.width && 0 <= y < p.height && #[trigger] cells[(x, y)] == cell
}

/// Some cell is `Spawn(Down)` exactly if some top wall is notched: the marker of the
/// last such wall is never written over.
pub proof fn lemma_down_spawn(p: Parameters, d: ColumnDraws)
    requires
        p.well_formed(),
    ensures
        holds(corridor_cells(p, d), p, Cell::Spawn(Direction::Down)) <==> (exists|c: int|
            0 <= c < p.width && #[trigger] notched(p, d, Side::Top, c)),
{
    let spawn = Cell::Spawn(Direction::Down);
    if exists|c: int| 0 <= c < p.width && #[trigger] notched(p, d, Side::Top, c) {
        lemma_last_notched(p, d, Side::Top, p.width);
        let c = last_notched(p, d, Side::Top, p.width);
        assert(pass_write(p, d, Side::Top, p.width, c + 1, 2) == Some(spawn));
        assert(corridor_cells(p, d)[(c + 1, 2)] == spawn);
    }
    if holds(corridor_cells(p, d), p, spawn) {
        let (x, y) = choose|x: int, y: int|
            0 <= x < p.width && 0 <= y < p.height && #[trigger] corridor_cells(p, d)[(x, y)]
                == spawn;
        assert(cell_at(p, d, x, y) == spawn);
        assert(notched(p, d, Side::Top, x - 1));
    }
}

/// A level has a cell `Spawn(Up)` and a cell `Spawn(Down)` if each side has a wall
/// column and the grid is at least five rows higher than the corridor: then every wall
/// is notched, and no notch of the top reaches down to the markers of the bottom.
pub proof fn lemma_spawns_exist(p: Parameters, d: ColumnDraws)
    requires
        p.well_formed(),
        valid_draws(p, d),
        1 <= p.corridor_height <= p.height - 5,
        exists|c: int| wall_column(p, Side::Top, c),
        exists|c: int| wall_column(p, Side::Bottom, c),
    ensures
        holds(corridor_cells(p, d), p, Cell::Spawn(Direction::Up)),
        holds(corridor_cells(p, d), p, Cell::Spawn(Direction::Down)),
{
    let top = choose|c: int| wall_column(p, Side::Top, c);
    lemma_drawn_height(p, d, Side::Top, top);
    assert(notched(p, d, Side::Top, top));
    lemma_down_spawn(p, d);

    let bottom = choose|c: int| wall_column(p, Side::Bottom, c);
    if wall_column(p, Side::Top, bottom) {
        lemma_drawn_height(p, d, Side::Top, bottom);
    }
    lemma_drawn_height(p, d, Side::Bottom, bottom);
    assert(notched(p, d, Side::Bottom, bottom));
    lemma_last_notched(p, d, Side::Bottom, p.width);
    let c = last_notched(p, d, Side::Bottom, p.width);
    let y = p.height - 3;
    assert(pass_write(p, d, Side::Bottom, p.width, c + 1, y) == Some(marker(Side::Bottom)));
    assert(pass_write(p, d, Side::Top, p.width, c + 1, y) is None) by {
        assert forall|w: int| 0 <= w < p.width && notched(p, d, Side::Top, w) implies notch_row_at(
            p,
            d,
            Side::Top,
            w,
        ) < y by {
            lemma_drawn_height(p, d, Side::Top, w);
        }
    }
    assert(corridor_cells(p, d)[(c + 1, y)] == Cell::Spawn(Direction::Up));
}

/// A side has a wall column whatever its offset, if the grid is wide enough for a full
/// period of walls between the columns that are kept clear at both ends.
pub proof fn lemma_wall_column_exists(p: Parameters, side: Side)
    requires
        0 <= p.corridor_width,
        p.width >= 2 * p.corridor_width + 5,
    ensures
        exists|c: int| wall_column(p, side, c),
{
    let period = p.corridor_width + 1;
    let shift = offset(p, side) - 3;
    let c = 3 + shift % period;
    lemma_mod_bound(shift, period);
    lemma_fundamental_div_mod(shift, period);
    assert(c - offset(p, side) == (-(shift / period)) * period) by (nonlinear_arith)
        requires
            c == 3 + shift % period,
            shift == offset(p, side) - 3,
            shift == period * (shift / period) + shift % period,
    ;
    lemma_mod_multiples_basic(-(shift / period), period);
    assert(wall_column(p, side, c));
}

} // verus!
