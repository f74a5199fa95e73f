//! The four directions a snake can face on the grid.

use vstd::prelude::*;

verus! {

/// A facing on the grid. `Right` is towards larger `x`, `Up` towards larger `y`.
#[derive(Clone, Copy, Debug, PartialEq, Eq, Structural)]
pub enum Direction {
    Left,
    Right,
    Down,
    Up,
}

impl Direction {
    /// The direction that points the other way along the same axis.
    pub open spec fn spec_opposite(&self) -> Direction {
        match self {
            Direction::Left => Direction::Right,
            Direction::Right => Direction::Left,
            Direction::Down => Direction::Up,
            Direction::Up => Direction::Down,
        }
    }

    /// The step of one cell in this direction, as `(dx, dy)`.
    pub open spec fn spec_vec(&self) -> (i32, i32) {
        match self {
            Direction::Left => (-1i32, 0i32),
            Direction::Right => (1i32, 0i32),
            Direction::Down => (0i32, -1i32),
            Direction::Up => (0i32, 1i32),
        }
    }

    /// Returns the direction that points the other way.
    #[verifier::when_used_as_spec(spec_opposite)]
    pub fn opposite(&self) -> (r: Direction)
        ensures
            r == self.spec_opposite(),
    {
        match self {
            Direction::Left => Direction::Right,
            Direction::Right => Direction::Left,
            Direction::Down => Direction::Up,
            Direction::Up => Direction::Down,
        }
    }

    /// Returns the step of one cell in this direction, as `(dx, dy)`.
    #[verifier::when_used_as_spec(spec_vec)]
    pub fn vec(&self) -> (r: (i32, i32))
        ensures
            r == self.spec_vec(),
    {
        match self {
            Direction::Left => (-1, 0),
            Direction::Right => (1, 0),
            Direction::Down => (0, -1),
            Direction::Up => (0, 1),
        }
    }
}

} // verus!
