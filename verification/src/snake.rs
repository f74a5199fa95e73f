//! The rules of the snake: where it may turn, how it moves, how its body follows.

use vstd::prelude::*;
use crate::direction::Direction;

verus! {

/// The width of the snake's world, in cells.
pub const GRID_WIDTH: u32 = 29;

/// The height of the snake's world, in cells.
pub const GRID_HEIGHT: u32 = 29;

/// `value` brought into the range of a grid coordinate.
pub open spec fn clamped(value: int) -> u32 {
    if value < 0 {
        0u32
    } else if value > u32::MAX {
        u32::MAX
    } else {
        value as u32
    }
}

/// A cell of the snake's world.
#[derive(Clone, Copy, Debug, PartialEq, Eq, Structural)]
pub struct GridPosition {
    pub x: u32,
    pub y: u32,
}

impl Default for GridPosition {
    /// The cell in the corner of the world.
    fn default() -> (position: GridPosition)
        ensures
            position == (GridPosition { x: 0, y: 0 }),
    {
        GridPosition { x: 0, y: 0 }
    }
}

impl GridPosition {
    /// Whether the position lies inside the snake's world.
    pub open spec fn spec_in_bounds(&self) -> bool {
        self.x < GRID_WIDTH && self.y < GRID_HEIGHT
    }

    /// The position `steps` cells away in the given direction. A coordinate that would
    /// leave the range of `u32` stops at the end of that range.
    pub open spec fn spec_moved(&self, direction: Direction, steps: u32) -> GridPosition {
        GridPosition {
            x: clamped(self.x + direction.spec_vec().0 * steps),
            y: clamped(self.y + direction.spec_vec().1 * steps),
        }
    }

    /// The position with the given coordinates.
    pub fn new(x: u32, y: u32) -> (position: GridPosition)
        ensures
            position == (GridPosition { x, y }),
    {
        GridPosition { x, y }
    }

    /// The middle of the snake's world.
    pub fn center() -> (position: GridPosition)
        ensures
            position == (GridPosition { x: GRID_WIDTH / 2, y: GRID_HEIGHT / 2 }),
    {
        GridPosition::new(GRID_WIDTH / 2, GRID_HEIGHT / 2)
    }

    /// Whether the position lies inside the snake's world.
    #[verifier::when_used_as_spec(spec_in_bounds)]
    pub fn in_bounds(&self) -> (r: bool)
        ensures
            r == self.spec_in_bounds(),
    {
        self.x < GRID_WIDTH && self.y < GRID_HEIGHT
    }

    /// The position `steps` cells away in the given direction.
    #[verifier::when_used_as_spec(spec_moved)]
    pub fn moved(&self, direction: Direction, steps: u32) -> (position: GridPosition)
        ensures
            position == self.spec_moved(direction, steps),
    {
        let (dx, dy) = direction.vec();
        GridPosition { x: shifted(self.x, dx, steps), y: shifted(self.y, dy, steps) }
    }
}

/// One coordinate moved by `steps` times `delta`, kept in the range of `u32`.
fn shifted(coordinate: u32, delta: i32, steps: u32) -> (r: u32)
    requires
        -1 <= delta <= 1,
    ensures
        r == clamped(coordinate + delta * steps),
{
    assert(-0xffff_ffff <= delta * steps <= 0xffff_ffff) by (nonlinear_arith)
        requires
            -1 <= delta <= 1,
            0 <= steps <= 0xffff_ffff,
    ;
    let target: i64 = coordinate as i64 + delta as i64 * steps as i64;
    if target < 0 {
        0
    } else if target > u32::MAX as i64 {
        u32::MAX
    } else {
        target as u32
    }
}

/// The keys that steer the snake, each pressed or not.
#[derive(Clone, Copy, Debug, PartialEq, Eq, Structural)]
pub struct Keys {
    pub left: bool,
    pub down: bool,
    pub up: bool,
    pub right: bool,
}

impl Keys {
    /// The direction that the keys ask for: that of the first pressed key among left,
    /// down, up and right, or `current` if none is pressed.
    pub open spec fn spec_wanted(&self, current: Direction) -> Direction {
        if self.left {
            Direction::Left
        } else if self.down {
            Direction::Down
        } else if self.up {
            Direction::Up
        } else if self.right {
            Direction::Right
        } else {
            current
        }
    }

    /// Returns the direction that the keys ask for.
    #[verifier::when_used_as_spec(spec_wanted)]
    pub fn wanted(&self, current: Direction) -> (direction: Direction)
        ensures
            direction == self.spec_wanted(current),
    {
        if self.left {
            Direction::Left
        } else if self.down {
            Direction::Down
        } else if self.up {
            Direction::Up
        } else if self.right {
            Direction::Right
        } else {
            current
        }
    }
}

/// The head of a snake: where it is heading, and where it will head after its next
/// step.
#[derive(Clone, Copy, Debug, PartialEq, Eq, Structural)]
pub struct SnakeHead {
    pub direction: Direction,
    pub next_direction: Direction,
}

impl SnakeHead {
    /// A head that is heading, and will go on heading, in `direction`.
    pub fn new(direction: Direction) -> (head: SnakeHead)
        ensures
            head == (SnakeHead { direction, next_direction: direction }),
    {
        SnakeHead { direction, next_direction: direction }
    }

    /// Takes the direction that the keys ask for as the next one, unless it would turn
    /// the snake back on itself.
    pub fn steer(&mut self, keys: Keys)
        ensures
            final(self).direction == old(self).direction,
            final(self).next_direction == if keys.spec_wanted(old(self).direction) != old(
                self,
            ).direction.spec_opposite() {
                keys.spec_wanted(old(self).direction)
            } else {
                old(self).next_direction
            },
    {
        let direction = keys.wanted(self.direction);
        if direction != self.direction.opposite() {
            self.next_direction = direction;
        }
    }

    /// Turns the head to its next direction and returns where one step from `position`
    /// takes it.
    pub fn advance(&mut self, position: GridPosition) -> (target: GridPosition)
        ensures
            final(self).direction == old(self).next_direction,
            final(self).next_direction == old(self).next_direction,
            target == position.spec_moved(old(self).next_direction, 1),
    {
        self.direction = self.next_direction;
        position.moved(self.direction, 1)
    }
}

/// The positions of the body after a step: the first segment takes the place that the
/// head had, every other segment the place of the one before it.
pub open spec fn followed(head: GridPosition, segments: Seq<GridPosition>) -> Seq<GridPosition> {
    Seq::new(
        segments.len(),
        |i: int|
            if i == 0 {
                head
            } else {
                segments[i - 1]
            },
    )
}

/// Returns the positions of the body after a step, given where the head and the
/// segments were before it.
pub fn follow(head: GridPosition, segments: &Vec<GridPosition>) -> (moved: Vec<GridPosition>)
    ensures
        moved@ == followed(head, segments@),
{
    let mut moved: Vec<GridPosition> = Vec::new();
    let mut i: usize = 0;
    while i < segments.len()
        invariant
            i <= segments.len(),
            moved@ == followed(head, segments@).take(i as int),
        decreases segments.len() - i,
    {
        let place = if i == 0 {
            head
        } else {
            segments[i - 1]
        };
        moved.push(place);
        assert(moved@ =~= followed(head, segments@).take(i + 1));
        i += 1;
    }
    assert(moved@ =~= followed(head, segments@));
    moved
}

/// The places of a body of `count` segments laid out in a straight line behind a head
/// at `head` that faces in `direction`.
pub open spec fn trailing(head: GridPosition, direction: Direction, count: u32) -> Seq<
    GridPosition,
> {
    Seq::new(count as nat, |i: int| head.spec_moved(direction.spec_opposite(), (i + 1) as u32))
}

/// Returns the places of a body of `count` segments laid out behind the head.
pub fn trail(head: GridPosition, direction: Direction, count: u32) -> (body: Vec<GridPosition>)
    ensures
        body@ == trailing(head, direction, count),
{
    let behind = direction.opposite();
    let mut body: Vec<GridPosition> = Vec::new();
    let mut i: u32 = 0;
    while i < count
        invariant
            i <= count,
            behind == direction.spec_opposite(),
            body@ == trailing(head, direction, count).take(i as int),
        decreases count - i,
    {
        body.push(head.moved(behind, i + 1));
        assert(body@ =~= trailing(head, direction, count).take(i + 1));
        i += 1;
    }
    assert(body@ =~= trailing(head, direction, count));
    body
}

/// A counter of the steps of the game.
#[derive(Clone, Copy, Debug, PartialEq, Eq, Structural)]
pub struct Clock {
    pub ticks: u32,
}

impl Default for Clock {
    /// A clock that has counted nothing yet.
    fn default() -> (clock: Clock)
        ensures
            clock.ticks == 0,
    {
        Clock { ticks: 0 }
    }
}

impl Clock {
    /// Counts one more step and returns the new count.
    pub fn tick(&mut self) -> (ticks: u32)
        requires
            old(self).ticks < u32::MAX,
        ensures
            final(self).ticks == old(self).ticks + 1,
            ticks == final(self).ticks,
    {
        self.ticks += 1;
        self.ticks
    }
}

} // verus!
