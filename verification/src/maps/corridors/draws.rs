//! The random part of a level: the sweep that decides, column by column, which values
//! are needed, and draws them.

use vstd::prelude::*;
use rand_pcg::Pcg64;
use crate::config::Cell;
use crate::random::{draw_in_range, draw_word};
use super::heights::{is_wall_height, lemma_wall_height_bounds, unit_fraction, wall_height};
use super::model::{
    blocked, classify, draws_bottom, draws_top, memoized, redraws_gap, valid_draws,
    valid_prefix, ColumnDraws, Parameters, Side,
};
use super::CorridorsMap;

verus! {

/// A valid prefix stays valid when each table gets one more entry that is what the
/// sweep can draw for the next column.
proof fn lemma_valid_prefix_extends(p: Parameters, before: ColumnDraws, after: ColumnDraws)
    requires
        before.covers(before.top@.len() as int),
        valid_prefix(p, before, before.top@.len() as int),
        after.top@ == before.top@.push(after.top@.last()),
        after.bottom@ == before.bottom@.push(after.bottom@.last()),
        after.gap@ == before.gap@.push(after.gap@.last()),
        draws_top(p, before.top@.len() as int) ==> is_wall_height(
            p.corridor_height,
            p.variance,
            after.top@.last() as int,
        ),
        draws_bottom(p, before.top@.len() as int, after.top@.last() as int) ==> is_wall_height(
            p.corridor_height,
            p.variance,
            after.bottom@.last() as int,
        ),
        if redraws_gap(p, after, before.top@.len() as int) {
            1 <= after.gap@.last() <= p.height - 2
        } else if before.top@.len() == 0 {
            after.gap@.last() == 1
        } else {
            after.gap@.last() == before.gap@.last()
        },
    ensures
        valid_prefix(p, after, before.top@.len() as int + 1),
{
    let k = before.top@.len() as int;
    assert forall|x: int| 0 <= x < k implies memoized(p, after, Side::Top, x) == memoized(
        p,
        before,
        Side::Top,
        x,
    ) && memoized(p, after, Side::Bottom, x) == memoized(p, before, Side::Bottom, x)
        && redraws_gap(p, after, x) == redraws_gap(p, before, x) by {}
    assert forall|x: int| 0 <= x < k + 1 && #[trigger] memoized(
        p,
        after,
        Side::Top,
        x,
    ) implies is_wall_height(p.corridor_height, p.variance, after.top@[x] as int) by {
        if x < k {
            assert(memoized(p, before, Side::Top, x));
        }
    }
    assert forall|x: int| 0 <= x < k + 1 && #[trigger] memoized(
        p,
        after,
        Side::Bottom,
        x,
    ) implies is_wall_height(p.corridor_height, p.variance, after.bottom@[x] as int) by {
        if x < k {
            assert(memoized(p, before, Side::Bottom, x));
        }
    }
    assert forall|x: int| 0 <= x < k + 1 implies if #[trigger] redraws_gap(p, after, x) {
        1 <= after.gap@[x] <= p.height - 2
    } else if x == 0 {
        after.gap@[x] == 1
    } else {
        after.gap@[x] == after.gap@[x - 1]
    } by {
        if x < k {
            assert(redraws_gap(p, before, x) == redraws_gap(p, after, x));
        }
    }
}

impl CorridorsMap {
    /// Draws the height of one wall: the corridor's height, less a random part of the
    /// share that the variance sets.
    pub fn draw_wall_height(&self, generator: &mut Pcg64) -> (h: u32)
        requires
            self.well_formed(),
        ensures
            is_wall_height(self@.corridor_height, self@.variance, h as int),
            h <= self@.corridor_height,
            self@.variance == 0 ==> h == self@.corridor_height,
    {
        let fraction = unit_fraction(draw_word(generator));
        let h = wall_height(self.corridor_height, self.wall_variance, fraction);
        proof {
            lemma_wall_height_bounds(self@.corridor_height, self@.variance, fraction as int);
        }
        h
    }

    /// Sweeps over the columns from left to right and draws what each one needs: the
    /// height of its top wall, the height of its bottom wall, and a new gap row where
    /// the walls block it and did not block the column before.
    pub fn draw_columns(&self, generator: &mut Pcg64) -> (draws: ColumnDraws)
        requires
            self.well_formed(),
        ensures
            valid_draws(self@, draws),
    {
        let mut draws = ColumnDraws { top: Vec::new(), bottom: Vec::new(), gap: Vec::new() };
        let mut gap: u32 = 1;
        let mut previously_blocked = true;
        let mut x: u32 = 0;
        while x < self.width
            invariant
                x <= self.width,
                self.well_formed(),
                draws.covers(x as int),
                valid_prefix(self@, draws, x as int),
                x == 0 ==> gap == 1,
                x > 0 ==> gap == draws.gap@[x - 1] && previously_blocked == blocked(
                    self@,
                    draws,
                    x - 1,
                ),
            decreases self.width - x,
        {
            let ghost before = draws;
            let top = if self.is_memoized(Side::Top, x, 0) {
                self.draw_wall_height(generator)
            } else {
                0
            };
            let bottom = if self.is_memoized(Side::Bottom, x, top) {
                self.draw_wall_height(generator)
            } else {
                0
            };
            let is_blocked = self.is_blocked(x, top, bottom);
            if is_blocked && 0 < x && x < self.width - 1 && !previously_blocked {
                assert(self.height >= 3) by {
                    // the column on the left has a cell that is no wall, off the border
                    let row = choose|row: int|
                        0 <= row < self@.height && #[trigger] classify(
                            self@,
                            x - 1,
                            before.top@[x - 1] as int,
                            before.bottom@[x - 1] as int,
                            row,
                        ) != Cell::Wall;
                    assert(0 < row < self@.height - 1);
                }
                gap = draw_in_range(generator, 1, self.height - 1);
            }
            draws.top.push(top);
            draws.bottom.push(bottom);
            draws.gap.push(gap);
            proof {
                assert(blocked(self@, draws, x as int) == is_blocked);
                lemma_valid_prefix_extends(self@, before, draws);
            }
            previously_blocked = is_blocked;
            x += 1;
        }
        draws
    }
}

} // verus!
