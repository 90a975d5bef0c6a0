use vstd::prelude::*;

verus! {

/// A facing direction on the grid.
#[derive(Clone, Copy, PartialEq, Eq, Structural, Debug)]
pub enum Direction {
    Left,
    Up,
    Right,
    Down,
}

impl Direction {
    /// The exact reverse of this direction.
    pub open spec fn opposite_spec(self) -> Direction {
        match self {
            Direction::Left => Direction::Right,
            Direction::Right => Direction::Left,
            Direction::Up => Direction::Down,
            Direction::Down => Direction::Up,
        }
    }

    /// Returns the exact reverse of this direction.
    pub fn opposite(self) -> (r: Direction)
        ensures
            r == self.opposite_spec(),
    {
        match self {
            Direction::Left => Direction::Right,
            Direction::Right => Direction::Left,
            Direction::Up => Direction::Down,
            Direction::Down => Direction::Up,
        }
    }
}

/// Reversing a direction twice gives the original direction back.
pub proof fn lemma_opposite_involutive(d: Direction)
    ensures
        d.opposite_spec().opposite_spec() == d,
{
}

/// The movement keys held down during one frame.
#[derive(Clone, Copy, PartialEq, Eq, Structural, Debug)]
pub struct KeySet {
    pub left: bool,
    pub down: bool,
    pub up: bool,
    pub right: bool,
}

/// The direction the pressed keys ask for: the first pressed key in the
/// fixed priority order left, down, up, right, or the current facing when
/// no movement key is down.
pub open spec fn candidate_spec(keys: KeySet, current: Direction) -> Direction {
    if keys.left {
        Direction::Left
    } else if keys.down {
        Direction::Down
    } else if keys.up {
        Direction::Up
    } else if keys.right {
        Direction::Right
    } else {
        current
    }
}

/// The facing after one frame of input: the candidate direction, unless it
/// is the exact reverse of the current facing, which is ignored.
pub open spec fn resolve_spec(keys: KeySet, current: Direction) -> Direction {
    if candidate_spec(keys, current) == current.opposite_spec() {
        current
    } else {
        candidate_spec(keys, current)
    }
}

/// Resolves one frame of key input against the current facing direction.
pub fn resolve_direction(keys: KeySet, current: Direction) -> (r: Direction)
    ensures
        r == resolve_spec(keys, current),
{
    let dir = if keys.left {
        Direction::Left
    } else if keys.down {
        Direction::Down
    } else if keys.up {
        Direction::Up
    } else if keys.right {
        Direction::Right
    } else {
        current
    };
    if dir == current.opposite() {
        current
    } else {
        dir
    }
}

/// An input that asks for the exact reverse of the current facing never
/// changes the facing.
pub proof fn lemma_reversal_rejected(keys: KeySet, current: Direction)
    requires
        candidate_spec(keys, current) == current.opposite_spec(),
    ensures
        resolve_spec(keys, current) == current,
{
}

} // verus!
