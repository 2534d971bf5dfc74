//! The board and its cells.

use vstd::prelude::*;

use crate::direction::Direction;

verus! {

/// Number of cells in a row of the board, wall included.
pub const BOARD_WIDTH: i32 = 25;

/// Number of cells in a column of the board, wall included.
pub const BOARD_HEIGHT: i32 = 25;

/// Number of cells inside the wall ring.
pub const INTERIOR_CELLS: usize = 529;

/// A cell of the grid as a pair of mathematical integers.
pub struct Cell {
    pub x: int,
    pub y: int,
}

impl Cell {
    /// The cell lies inside the wall ring.
    pub open spec fn is_interior(self) -> bool {
        1 <= self.x <= BOARD_WIDTH - 2 && 1 <= self.y <= BOARD_HEIGHT - 2
    }

    /// Entering the cell is fatal: it belongs to the wall ring or lies beyond it.
    pub open spec fn hits_wall(self) -> bool {
        !self.is_interior()
    }

    /// The cell belongs to the wall ring, the outermost cells of the board.
    pub open spec fn in_wall_ring(self) -> bool {
        &&& 0 <= self.x <= BOARD_WIDTH - 1
        &&& 0 <= self.y <= BOARD_HEIGHT - 1
        &&& (self.x == 0 || self.x == BOARD_WIDTH - 1 || self.y == 0 || self.y == BOARD_HEIGHT - 1)
    }

    /// The neighbouring cell one step away in direction `d`.
    pub open spec fn step(self, d: Direction) -> Cell {
        Cell { x: self.x + d.dx(), y: self.y + d.dy() }
    }

    /// The two cells are one step apart along exactly one axis.
    pub open spec fn is_adjacent(self, other: Cell) -> bool {
        ||| self.x == other.x && (self.y - other.y == 1 || other.y - self.y == 1)
        ||| self.y == other.y && (self.x - other.x == 1 || other.x - self.x == 1)
    }
}

/// A cell of the grid held in machine integers.
#[derive(Clone, Copy, Debug, PartialEq, Eq, Structural)]
pub struct Block {
    pub x: i32,
    pub y: i32,
}

impl View for Block {
    type V = Cell;

    open spec fn view(&self) -> Cell {
        Cell { x: self.x as int, y: self.y as int }
    }
}

/// Draws an integer from `low..high` by `rand::Rng::gen_range` on the
/// generator of `rand::thread_rng`.
///
/// Not verified: the contract is taken from `rand`. `gen_range` panics on an
/// empty range, which the precondition excludes, and returns a number of the
/// range. Nothing more is claimed of the number: two calls with the same
/// bounds may differ. The generator is seeded by the system when a thread
/// first uses it, and panics if the system gives no seed.
#[verifier::external_body]
fn random_in_range(low: i32, high: i32) -> (r: i32)
    requires
        low < high,
    ensures
        low <= r < high,
{
    rand::Rng::gen_range(&mut rand::thread_rng(), low..high)
}

impl Block {
    /// Makes the cell with the given coordinates.
    pub fn new(x: i32, y: i32) -> (b: Block)
        ensures
            b@ == (Cell { x: x as int, y: y as int }),
            b.x == x,
            b.y == y,
    {
        Block { x, y }
    }

    /// Picks a cell inside the wall ring at random.
    pub fn random() -> (b: Block)
        ensures
            b@.is_interior(),
    {
        let x: i32 = random_in_range(1, BOARD_WIDTH - 1);
        let y: i32 = random_in_range(1, BOARD_HEIGHT - 1);
        Block::new(x, y)
    }

    /// Tells whether the cell lies inside the wall ring.
    pub fn is_interior(&self) -> (r: bool)
        ensures
            r == self@.is_interior(),
    {
        1 <= self.x && self.x <= BOARD_WIDTH - 2 && 1 <= self.y && self.y <= BOARD_HEIGHT - 2
    }

    /// Tells whether `other` is one step away along exactly one axis.
    pub fn is_adjacent(&self, other: Block) -> (r: bool)
        ensures
            r == self@.is_adjacent(other@),
    {
        let dx: i64 = self.x as i64 - other.x as i64;
        let dy: i64 = self.y as i64 - other.y as i64;
        (dx == 0 && (dy == 1 || dy == -1)) || (dy == 0 && (dx == 1 || dx == -1))
    }

    /// Returns the neighbouring cell one step away in direction `d`.
    pub fn step(&self, d: Direction) -> (b: Block)
        requires
            i32::MIN <= self@.step(d).x <= i32::MAX,
            i32::MIN <= self@.step(d).y <= i32::MAX,
        ensures
            b@ == self@.step(d),
    {
        match d {
            Direction::Up => Block { x: self.x, y: self.y - 1 },
            Direction::Down => Block { x: self.x, y: self.y + 1 },
            Direction::Left => Block { x: self.x - 1, y: self.y },
            Direction::Right => Block { x: self.x + 1, y: self.y },
        }
    }
}

} // verus!
