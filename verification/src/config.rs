//! The terrain of a level: cells and the grid that holds them.

use vstd::prelude::*;
use crate::direction::Direction;

verus! {

/// What occupies one grid coordinate.
#[derive(Clone, Copy, Debug, PartialEq, Eq, Structural)]
pub enum Cell {
    /// Free space.
    Empty,
    /// Solid terrain.
    Wall,
    /// An entry point, with the facing of whatever starts there.
    Spawn(Direction),
}

/// The coordinates of a grid of the given size: `0 <= x < width`, `0 <= y < height`.
pub open spec fn grid(width: int, height: int) -> Set<(int, int)> {
    Set::new(|k: (int, int)| 0 <= k.0 < width && 0 <= k.1 < height)
}

/// A level: one cell for every coordinate of a `width` by `height` grid.
///
/// The cells are stored column by column; every column has `height` entries.
#[derive(Debug)]
pub struct MapData {
    width: u32,
    height: u32,
    columns: Vec<Vec<Cell>>,
}

impl View for MapData {
    type V = Map<(int, int), Cell>;

    /// The level as a mapping from `(x, y)` to the cell there.
    closed spec fn view(&self) -> Map<(int, int), Cell> {
        Map::new(
            |k: (int, int)| grid(self.width as int, self.height as int).contains(k),
            |k: (int, int)| self.columns[k.0][k.1],
        )
    }
}

impl MapData {
    #[verifier::type_invariant]
    spec fn well_formed(self) -> bool {
        &&& self.columns.len() == self.width
        &&& forall|x: int| 0 <= x < self.columns.len() ==> (#[trigger] self.columns[x]).len() == self.height
    }

    /// The number of columns.
    pub closed spec fn spec_width(&self) -> u32 {
        self.width
    }

    /// The number of rows.
    pub closed spec fn spec_height(&self) -> u32 {
        self.height
    }

    /// The mapping has an entry for exactly the coordinates of the grid.
    pub proof fn lemma_domain(&self)
        ensures
            self@.dom() == grid(self.spec_width() as int, self.spec_height() as int),
    {
        assert(self@.dom() =~= grid(self.width as int, self.height as int));
    }

    /// A level of the given size in which every cell is `cell`.
    pub fn filled(width: u32, height: u32, cell: Cell) -> (map: MapData)
        ensures
            map.spec_width() == width,
            map.spec_height() == height,
            map@ == Map::new(
                |k: (int, int)| grid(width as int, height as int).contains(k),
                |k: (int, int)| cell,
            ),
    {
        let mut column: Vec<Cell> = Vec::new();
        let mut y: u32 = 0;
        while y < height
            invariant
                y <= height,
                column.len() == y,
                forall|j: int| 0 <= j < y ==> column[j] == cell,
            decreases height - y,
        {
            column.push(cell);
            y += 1;
        }
        let mut columns: Vec<Vec<Cell>> = Vec::new();
        let mut x: u32 = 0;
        while x < width
            invariant
                x <= width,
                columns.len() == x,
                column.len() == height,
                forall|j: int| 0 <= j < height ==> column[j] == cell,
                forall|i: int| 0 <= i < x ==> (#[trigger] columns[i])@ == column@,
            decreases width - x,
        {
            columns.push(column.clone());
            x += 1;
        }
        let map = MapData { width, height, columns };
        assert(map@ =~= Map::new(
            |k: (int, int)| grid(width as int, height as int).contains(k),
            |k: (int, int)| cell,
        ));
        map
    }

    /// The number of columns.
    #[verifier::when_used_as_spec(spec_width)]
    pub fn width(&self) -> (w: u32)
        ensures
            w == self.spec_width(),
    {
        self.width
    }

    /// The number of rows.
    #[verifier::when_used_as_spec(spec_height)]
    pub fn height(&self) -> (h: u32)
        ensures
            h == self.spec_height(),
    {
        self.height
    }

    /// The cell at `(x, y)`, or `None` outside the grid.
    pub fn get(&self, x: u32, y: u32) -> (cell: Option<Cell>)
        ensures
            cell == if x < self.spec_width() && y < self.spec_height() {
                Some(self@[(x as int, y as int)])
            } else {
                None::<Cell>
            },
    {
        proof {
            use_type_invariant(self);
        }
        if x < self.width && y < self.height {
            Some(self.columns[x as usize][y as usize])
        } else {
            None
        }
    }

    /// Overwrites the cell at `(x, y)`.
    pub fn set(&mut self, x: u32, y: u32, cell: Cell)
        requires
            x < old(self).spec_width(),
            y < old(self).spec_height(),
        ensures
            final(self).spec_width() == old(self).spec_width(),
            final(self).spec_height() == old(self).spec_height(),
            final(self)@ == old(self)@.insert((x as int, y as int), cell),
    {
        proof {
            use_type_invariant(&*self);
        }
        store(&mut self.columns, x as usize, y as usize, cell);
        assert(self@ =~= old(self)@.insert((x as int, y as int), cell));
    }
}

/// Overwrites entry `y` of column `x`, leaving every length as it was.
fn store(columns: &mut Vec<Vec<Cell>>, x: usize, y: usize, cell: Cell)
    requires
        x < old(columns).len(),
        y < old(columns)[x as int].len(),
    ensures
        final(columns)@ == old(columns)@.update(x as int, final(columns)[x as int]),
        final(columns)[x as int]@ == old(columns)[x as int]@.update(y as int, cell),
    no_unwind
{
    columns[x][y] = cell;
}

} // verus!
