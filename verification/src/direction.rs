//! Headings of the snake.

use vstd::prelude::*;

verus! {

/// One of the four directions in which the snake can travel.
#[derive(Clone, Copy, Debug, PartialEq, Eq, Structural)]
pub enum Direction {
    Up,
    Down,
    Left,
    Right,
}

impl Direction {
    /// The direction pointing the other way.
    pub open spec fn spec_opposite(self) -> Direction {
        match self {
            Direction::Up => Direction::Down,
            Direction::Down => Direction::Up,
            Direction::Left => Direction::Right,
            Direction::Right => Direction::Left,
        }
    }

    /// Change of the `x` coordinate made by one step in this direction.
    pub open spec fn dx(self) -> int {
        match self {
            Direction::Left => -1,
            Direction::Right => 1,
            _ => 0,
        }
    }

    /// Change of the `y` coordinate made by one step in this direction.
    /// The `y` axis points down the screen, so `Up` decreases it.
    pub open spec fn dy(self) -> int {
        match self {
            Direction::Up => -1,
            Direction::Down => 1,
            _ => 0,
        }
    }

    /// The heading that results when `requested` is asked for while travelling
    /// in direction `self`: a request to reverse is ignored, any other request
    /// is taken.
    pub open spec fn turned(self, requested: Direction) -> Direction {
        if requested == self.spec_opposite() {
            self
        } else {
            requested
        }
    }

    /// Returns the direction pointing the other way.
    #[verifier::when_used_as_spec(spec_opposite)]
    pub fn opposite(self) -> (r: Direction)
        ensures
            r == self.spec_opposite(),
    {
        match self {
            Direction::Up => Direction::Down,
            Direction::Down => Direction::Up,
            Direction::Left => Direction::Right,
            Direction::Right => Direction::Left,
        }
    }

    /// Tells whether `other` points exactly the other way.
    pub fn is_opposite(self, other: Direction) -> (r: bool)
        ensures
            r == (other == self.spec_opposite()),
    {
        other == self.opposite()
    }

    /// Returns the heading after a request to travel in direction `requested`.
    pub fn turn(self, requested: Direction) -> (r: Direction)
        ensures
            r == self.turned(requested),
    {
        if self.is_opposite(requested) {
            self
        } else {
            requested
        }
    }
}

} // verus!
