//! The rules of the sweep for a single column.

use vstd::prelude::*;
use vstd::arithmetic::div_mod::{lemma_fundamental_div_mod, lemma_mod_multiples_basic};
use crate::config::Cell;
use super::model::{
    classify, column_blocked, draws_bottom, draws_top, is_border, wall_column, wall_covers, Side,
};
use super::CorridorsMap;

verus! {

/// A multiple of `m` stays one when its sign is changed.
proof fn lemma_negated_multiple(a: int, m: int)
    requires
        m > 0,
    ensures
        (-a) % m == 0 <==> a % m == 0,
{
    lemma_fundamental_div_mod(a, m);
    lemma_fundamental_div_mod(-a, m);
    if a % m == 0 {
        assert(-a == (-(a / m)) * m) by (nonlinear_arith)
            requires
                a == m * (a / m),
        ;
        lemma_mod_multiples_basic(-(a / m), m);
    }
    if (-a) % m == 0 {
        assert(a == (-((-a) / m)) * m) by (nonlinear_arith)
            requires
                -a == m * ((-a) / m),
        ;
        lemma_mod_multiples_basic(-((-a) / m), m);
    }
}

/// Whether `a` is a multiple of `m`.
fn is_multiple(a: i64, m: i64) -> (r: bool)
    requires
        m > 0,
        a > i64::MIN,
    ensures
        r == (a as int % m as int == 0),
{
    if a >= 0 {
        a % m == 0
    } else {
        proof {
            lemma_negated_multiple(a as int, m as int);
        }
        (-a) % m == 0
    }
}

impl CorridorsMap {
    /// Whether column `x` carries a wall of the given side.
    pub fn is_wall_column(&self, side: Side, x: u32) -> (r: bool)
        ensures
            r == wall_column(self@, side, x as int),
    {
        let period: i64 = self.corridor_width as i64 + 1;
        let shifted: i64 = x as i64 - self.corridor_offset(side) as i64;
        let end: i64 = self.width as i64 - self.corridor_width as i64 - 1;
        2 < x && (x as i64) < end && is_multiple(shifted, period)
    }

    /// Whether `(x, y)` lies on the edge of the grid.
    pub fn is_border_cell(&self, x: u32, y: u32) -> (r: bool)
        ensures
            r == is_border(self@, x as int, y as int),
    {
        x == 0 || x as i64 == self.width as i64 - 1 || y == 0 || y as i64 == self.height as i64
            - 1
    }

    /// Whether a wall of height `h` of the given side reaches row `y`.
    pub fn wall_reaches(&self, side: Side, h: u32, y: u32) -> (r: bool)
        ensures
            r == wall_covers(self@, side, h as int, y as int),
    {
        match side {
            Side::Top => (y as i64) < h as i64 + 1,
            Side::Bottom => y as i64 > self.height as i64 - h as i64 - 2,
        }
    }

    /// Whether the sweep draws a height for the wall of the given side in column `x`.
    /// For the bottom this depends on `top`, the height of the column's top wall; for
    /// the top, `top` is not looked at.
    pub fn is_memoized(&self, side: Side, x: u32, top: u32) -> (r: bool)
        ensures
            r == match side {
                Side::Top => draws_top(self@, x as int),
                Side::Bottom => draws_bottom(self@, x as int, top as int),
            },
    {
        match side {
            Side::Top => self.is_wall_column(Side::Top, x) && self.height >= 3,
            Side::Bottom => {
                let filled = self.is_wall_column(Side::Top, x) && top as i64 >= self.height as i64
                    - 2;
                self.is_wall_column(Side::Bottom, x) && self.height >= 3 && !filled
            },
        }
    }

    /// The cell at `(x, y)` after the sweep, in a column whose walls have the heights
    /// `top` and `bottom`.
    pub fn classify_cell(&self, x: u32, top: u32, bottom: u32, y: u32) -> (cell: Cell)
        ensures
            cell == classify(self@, x as int, top as int, bottom as int, y as int),
    {
        if self.is_border_cell(x, y) || (self.is_wall_column(Side::Top, x) && self.wall_reaches(
            Side::Top,
            top,
            y,
        )) || (self.is_wall_column(Side::Bottom, x) && self.wall_reaches(Side::Bottom, bottom, y)) {
            Cell::Wall
        } else {
            Cell::Empty
        }
    }

    /// Whether the sweep leaves no empty cell in column `x`, given the heights of its
    /// walls.
    pub fn is_blocked(&self, x: u32, top: u32, bottom: u32) -> (r: bool)
        ensures
            r == column_blocked(self@, x as int, top as int, bottom as int),
    {
        let mut y: u32 = 0;
        while y < self.height
            invariant
                y <= self.height,
                forall|row: int|
                    0 <= row < y ==> #[trigger] classify(
                        self@,
                        x as int,
                        top as int,
                        bottom as int,
                        row,
                    ) == Cell::Wall,
            decreases self.height - y,
        {
            if self.classify_cell(x, top, bottom, y) != Cell::Wall {
                return false;
            }
            y += 1;
        }
        true
    }
}

} // verus!
