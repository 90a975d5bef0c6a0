use vstd::prelude::*;
use crate::direction::Direction;

verus! {

/// One square of the arena grid, addressed by signed integer coordinates.
/// There is no wraparound: stepping past an edge produces a coordinate
/// outside the arena, which the collision check reports.
#[derive(Clone, Copy, PartialEq, Eq, Structural, Debug, Hash)]
pub struct Cell {
    pub x: i32,
    pub y: i32,
}

/// The arena bounds. A cell is playable when it lies in
/// `[0, width) x [0, height)`, or in `[0, width] x [0, height]` when
/// `inclusive` is set: whether the upper edge itself is playable is a
/// configuration choice, not a fixed rule.
#[derive(Clone, Copy, PartialEq, Eq, Structural, Debug)]
pub struct ArenaConfig {
    pub width: i32,
    pub height: i32,
    pub inclusive: bool,
}

impl ArenaConfig {
    /// The arena is non-empty and small enough that a single one-cell step
    /// from a playable cell never overflows an `i32` coordinate.
    pub open spec fn wf(self) -> bool {
        &&& 0 < self.width < i32::MAX
        &&& 0 < self.height < i32::MAX
    }

    /// Whether `c` lies inside the configured bounds.
    pub open spec fn in_bounds_spec(self, c: Cell) -> bool {
        if self.inclusive {
            0 <= c.x <= self.width && 0 <= c.y <= self.height
        } else {
            0 <= c.x < self.width && 0 <= c.y < self.height
        }
    }

    /// Checks whether `c` lies inside the configured bounds.
    pub fn in_bounds(&self, c: &Cell) -> (r: bool)
        ensures
            r == self.in_bounds_spec(*c),
    {
        if self.inclusive {
            0 <= c.x && c.x <= self.width && 0 <= c.y && c.y <= self.height
        } else {
            0 <= c.x && c.x < self.width && 0 <= c.y && c.y < self.height
        }
    }
}

/// The cell one step away from `c` in direction `d`: left and right move
/// along `x`, up and down along `y`, with up increasing `y`.
pub open spec fn step_cell(c: Cell, d: Direction) -> Cell {
    match d {
        Direction::Left => Cell { x: (c.x - 1) as i32, y: c.y },
        Direction::Right => Cell { x: (c.x + 1) as i32, y: c.y },
        Direction::Up => Cell { x: c.x, y: (c.y + 1) as i32 },
        Direction::Down => Cell { x: c.x, y: (c.y - 1) as i32 },
    }
}

/// Moves one cell in direction `d`.
pub fn step(c: Cell, d: Direction) -> (r: Cell)
    requires
        i32::MIN < c.x < i32::MAX,
        i32::MIN < c.y < i32::MAX,
    ensures
        r == step_cell(c, d),
{
    match d {
        Direction::Left => Cell { x: c.x - 1, y: c.y },
        Direction::Right => Cell { x: c.x + 1, y: c.y },
        Direction::Up => Cell { x: c.x, y: c.y + 1 },
        Direction::Down => Cell { x: c.x, y: c.y - 1 },
    }
}

} // verus!
