//! Corridor levels: two rows of walls of irregular height, one hanging from the top edge
//! and one standing on the bottom edge, with a guaranteed way through every column.

pub mod columns;
pub mod draws;
pub mod heights;
pub mod laws;
pub mod layout;
pub mod model;

use vstd::prelude::*;
use rand_pcg::Pcg64;
use crate::config::{grid, Cell, MapData};
use crate::direction::Direction;
use self::heights::UNIT;
use self::laws::{
    holds, lemma_border_is_wall, lemma_covers_grid, lemma_spawns_exist, lemma_traversable,
    lemma_wall_column_exists, passable,
};
use self::model::{corridor_cells, is_border, valid_draws, ColumnDraws, Parameters, Side};

verus! {

/// The parameters of a corridor level.
#[derive(Clone, Copy, Debug)]
pub struct CorridorsMap {
    /// The number of columns of the grid.
    pub width: u32,
    /// The number of rows of the grid.
    pub height: u32,
    /// The free columns between two walls of one side.
    corridor_width: u32,
    /// The height of a wall without variance.
    corridor_height: u32,
    /// The horizontal offset of the walls at the top.
    top_corridor_offset: i32,
    /// The horizontal offset of the walls at the bottom.
    bottom_corridor_offset: i32,
    /// The share of a wall's height that is drawn at random, in units of `1 / UNIT`.
    wall_variance: u32,
}

impl View for CorridorsMap {
    type V = Parameters;

    closed spec fn view(&self) -> Parameters {
        Parameters {
            width: self.width as int,
            height: self.height as int,
            corridor_width: self.corridor_width as int,
            corridor_height: self.corridor_height as int,
            top_offset: self.top_corridor_offset as int,
            bottom_offset: self.bottom_corridor_offset as int,
            variance: self.wall_variance as int,
        }
    }
}

impl Default for CorridorsMap {
    /// A grid of 34 by 17 cells, with walls of height 10 at most and half of that at
    /// least, three columns apart.
    fn default() -> (map: CorridorsMap)
        ensures
            map@ == (Parameters {
                width: 34,
                height: 17,
                corridor_width: 3,
                corridor_height: 10,
                top_offset: 3,
                bottom_offset: 0,
                variance: UNIT as int / 2,
            }),
            map.well_formed(),
    {
        CorridorsMap {
            width: 34,
            height: 17,
            corridor_width: 3,
            corridor_height: 10,
            top_corridor_offset: 3,
            bottom_corridor_offset: 0,
            wall_variance: UNIT / 2,
        }
    }
}

impl CorridorsMap {
    /// Whether the parameters are well formed: the variance is at most one.
    pub open spec fn well_formed(&self) -> bool {
        self@.well_formed()
    }

    /// The parameters with the given values, or `None` if `wall_variance`, in units of
    /// `1 / UNIT`, is more than one.
    pub fn new(
        width: u32,
        height: u32,
        corridor_width: u32,
        corridor_height: u32,
        top_corridor_offset: i32,
        bottom_corridor_offset: i32,
        wall_variance: u32,
    ) -> (made: Option<CorridorsMap>)
        ensures
            made.is_some() <==> wall_variance <= UNIT,
            made.is_some() ==> made.unwrap().well_formed() && made.unwrap()@ == (Parameters {
                width: width as int,
                height: height as int,
                corridor_width: corridor_width as int,
                corridor_height: corridor_height as int,
                top_offset: top_corridor_offset as int,
                bottom_offset: bottom_corridor_offset as int,
                variance: wall_variance as int,
            }),
    {
        if wall_variance <= UNIT {
            Some(
                CorridorsMap {
                    width,
                    height,
                    corridor_width,
                    corridor_height,
                    top_corridor_offset,
                    bottom_corridor_offset,
                    wall_variance,
                },
            )
        } else {
            None
        }
    }

    /// Generates a level, drawing from `generator` what the parameters leave open.
    ///
    /// The level is the one that [`CorridorsMap::build_map`] builds from the values that
    /// [`CorridorsMap::draw_columns`] draws; whatever is drawn, those values are valid.
    pub fn get_map_data(&self, generator: &mut Pcg64) -> (map: MapData)
        requires
            self.well_formed(),
        ensures
            map.width() == self@.width,
            map.height() == self@.height,
            exists|draws: ColumnDraws|
                valid_draws(self@, draws) && map@ == #[trigger] corridor_cells(self@, draws),
            map@.dom() == grid(self@.width, self@.height),
            self@.corridor_width >= 1 && self@.height != 3 && (self@.height != 2 || self@.width
                <= 2) ==> forall|x: int, y: int|
                0 <= x < self@.width && 0 <= y < self@.height && is_border(self@, x, y)
                    ==> #[trigger] map@[(x, y)] == Cell::Wall,
            self@.height >= 3 ==> forall|x: int|
                0 < x < self@.width - 1 ==> #[trigger] passable(map@, self@.height, x),
            1 <= self@.corridor_height <= self@.height - 5 && self@.width >= 2
                * self@.corridor_width + 5 ==> holds(map@, self@, Cell::Spawn(Direction::Up))
                && holds(map@, self@, Cell::Spawn(Direction::Down)),
    {
        let draws = self.draw_columns(generator);
        let map = self.build_map(&draws);
        proof {
            lemma_covers_grid(self@, draws);
            if self@.corridor_width >= 1 && self@.height != 3 && (self@.height != 2
                || self@.width <= 2) {
                assert forall|x: int, y: int|
                    0 <= x < self@.width && 0 <= y < self@.height && is_border(
                        self@,
                        x,
                        y,
                    ) implies #[trigger] map@[(x, y)] == Cell::Wall by {
                    lemma_border_is_wall(self@, draws, x, y);
                }
            }
            if self@.height >= 3 {
                assert forall|x: int| 0 < x < self@.width - 1 implies #[trigger] passable(
                    map@,
                    self@.height,
                    x,
                ) by {
                    lemma_traversable(self@, draws, x);
                }
            }
            if 1 <= self@.corridor_height <= self@.height - 5 && self@.width >= 2
                * self@.corridor_width + 5 {
                lemma_wall_column_exists(self@, Side::Top);
                lemma_wall_column_exists(self@, Side::Bottom);
                lemma_spawns_exist(self@, draws);
            }
        }
        map
    }

    /// The free columns between two walls of one side.
    pub fn corridor_width(&self) -> (v: u32)
        ensures
            v == self@.corridor_width,
    {
        self.corridor_width
    }

    /// The height of a wall without variance.
    pub fn corridor_height(&self) -> (v: u32)
        ensures
            v == self@.corridor_height,
    {
        self.corridor_height
    }

    /// The horizontal offset of the walls of one side.
    pub fn corridor_offset(&self, side: Side) -> (v: i32)
        ensures
            v == model::offset(self@, side),
    {
        match side {
            Side::Top => self.top_corridor_offset,
            Side::Bottom => self.bottom_corridor_offset,
        }
    }

    /// The share of a wall's height that is drawn at random, in units of `1 / UNIT`.
    pub fn wall_variance(&self) -> (v: u32)
        ensures
            v == self@.variance,
    {
        self.wall_variance
    }
}

} // verus!
