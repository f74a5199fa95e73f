//! The deterministic part of a level: from the drawn values to the cells.

use vstd::prelude::*;
use crate::config::{grid, Cell, MapData};
use crate::direction::Direction;
use super::model::{
    blocked, carved, cell_at, classify, corridor_cells, marker, marker_row, notch_row_at,
    notched, pass_write, swept, ColumnDraws, Side,
};
use super::CorridorsMap;

verus! {

impl CorridorsMap {
    /// Fills the grid as the sweep does: every cell by its place and the walls of its
    /// column, then one forced gap in each blocked column that is not on the edge.
    fn sweep(&self, draws: &ColumnDraws) -> (map: MapData)
        requires
            draws.covers(self@.width),
        ensures
            map.width() == self@.width,
            map.height() == self@.height,
            forall|x: int, y: int|
                0 <= x < self@.width && 0 <= y < self@.height ==> #[trigger] map@[(x, y)]
                    == carved(self@, *draws, x, y),
    {
        let mut map = MapData::filled(self.width, self.height, Cell::Empty);
        let mut x: u32 = 0;
        while x < self.width
            invariant
                x <= self.width,
                draws.covers(self@.width),
                map.width() == self@.width,
                map.height() == self@.height,
                forall|c: int, r: int|
                    0 <= c < x && 0 <= r < self@.height ==> #[trigger] map@[(c, r)] == carved(
                        self@,
                        *draws,
                        c,
                        r,
                    ),
            decreases self.width - x,
        {
            let top = draws.top[x as usize];
            let bottom = draws.bottom[x as usize];
            let mut is_blocked = true;
            let mut y: u32 = 0;
            while y < self.height
                invariant
                    x < self.width,
                    y <= self.height,
                    map.width() == self@.width,
                    map.height() == self@.height,
                    top == draws.top@[x as int],
                    bottom == draws.bottom@[x as int],
                    forall|c: int, r: int|
                        0 <= c < x && 0 <= r < self@.height ==> #[trigger] map@[(c, r)]
                            == carved(self@, *draws, c, r),
                    forall|r: int|
                        0 <= r < y ==> #[trigger] map@[(x as int, r)] == swept(
                            self@,
                            *draws,
                            x as int,
                            r,
                        ),
                    is_blocked == forall|r: int|
                        0 <= r < y ==> #[trigger] classify(
                            self@,
                            x as int,
                            top as int,
                            bottom as int,
                            r,
                        ) == Cell::Wall,
                decreases self.height - y,
            {
                let cell = self.classify_cell(x, top, bottom, y);
                map.set(x, y, cell);
                if cell != Cell::Wall {
                    is_blocked = false;
                }
                y += 1;
            }
            assert(is_blocked == blocked(self@, *draws, x as int));
            if is_blocked && 0 < x && x < self.width - 1 {
                let gap = draws.gap[x as usize];
                if gap < self.height {
                    map.set(x, gap, Cell::Empty);
                }
            }
            x += 1;
        }
        map
    }

    /// Cuts the notches and sets the spawn markers of one side, wall by wall from left
    /// to right.
    fn carve(&self, map: &mut MapData, draws: &ColumnDraws, side: Side)
        requires
            draws.covers(self@.width),
            old(map).width() == self@.width,
            old(map).height() == self@.height,
        ensures
            final(map).width() == self@.width,
            final(map).height() == self@.height,
            forall|x: int, y: int|
                0 <= x < self@.width && 0 <= y < self@.height ==> #[trigger] final(map)@[(x, y)]
                    == match pass_write(self@, *draws, side, self@.width, x, y) {
                    Some(cell) => cell,
                    None => old(map)@[(x, y)],
                },
    {
        let spawn = match side {
            Side::Top => Cell::Spawn(Direction::Down),
            Side::Bottom => Cell::Spawn(Direction::Up),
        };
        let mut x: u32 = 0;
        while x < self.width
            invariant
                x <= self.width,
                draws.covers(self@.width),
                map.width() == self@.width,
                map.height() == self@.height,
                spawn == marker(side),
                forall|c: int, r: int|
                    0 <= c < self@.width && 0 <= r < self@.height ==> #[trigger] map@[(c, r)]
                        == match pass_write(self@, *draws, side, x as int, c, r) {
                        Some(cell) => cell,
                        None => old(map)@[(c, r)],
                    },
            decreases self.width - x,
        {
            let ghost before = map@;
            let h = match side {
                Side::Top => draws.top[x as usize],
                Side::Bottom => draws.bottom[x as usize],
            };
            if self.is_memoized(side, x, draws.top[x as usize]) {
                let row: i64 = match side {
                    Side::Top => h as i64 + 1,
                    Side::Bottom => self.height as i64 - h as i64 - 2,
                };
                assert(row == notch_row_at(self@, *draws, side, x as int));
                if row != 0 && row != self.height as i64 - 1 {
                    assert(notched(self@, *draws, side, x as int));
                    if 0 < row && row < self.height as i64 {
                        map.set(x - 1, row as u32, Cell::Empty);
                        map.set(x, row as u32, Cell::Empty);
                        map.set(x + 1, row as u32, Cell::Empty);
                    }
                    let spawn_row: u32 = match side {
                        Side::Top => 2,
                        Side::Bottom => self.height - 3,
                    };
                    map.set(x + 1, spawn_row, spawn);
                }
            }
            assert forall|c: int, r: int|
                0 <= c < self@.width && 0 <= r < self@.height implies #[trigger] map@[(c, r)]
                == match pass_write(self@, *draws, side, x + 1, c, r) {
                Some(cell) => cell,
                None => old(map)@[(c, r)],
            } by {
                assert(before[(c, r)] == match pass_write(self@, *draws, side, x as int, c, r) {
                    Some(cell) => cell,
                    None => old(map)@[(c, r)],
                });
            }
            x += 1;
        }
    }

    /// Builds the level that the drawn values describe.
    pub fn build_map(&self, draws: &ColumnDraws) -> (map: MapData)
        requires
            draws.covers(self@.width),
        ensures
            map.width() == self@.width,
            map.height() == self@.height,
            map@ == corridor_cells(self@, *draws),
    {
        let mut map = self.sweep(draws);
        let ghost swept_map = map@;
        self.carve(&mut map, draws, Side::Bottom);
        let ghost lower = map@;
        self.carve(&mut map, draws, Side::Top);
        proof {
            map.lemma_domain();
            assert forall|k: (int, int)| grid(self@.width, self@.height).contains(k) implies map@[k]
                == cell_at(self@, *draws, k.0, k.1) by {
                assert(lower[(k.0, k.1)] == match pass_write(
                    self@,
                    *draws,
                    Side::Bottom,
                    self@.width,
                    k.0,
                    k.1,
                ) {
                    Some(cell) => cell,
                    None => swept_map[(k.0, k.1)],
                });
            }
            assert(map@ =~= corridor_cells(self@, *draws));
        }
        map
    }
}

} // verus!
