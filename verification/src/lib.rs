//! A single-player snake game as a verified state machine.
//!
//! A snake moves on a fixed grid whose outermost ring of cells is a wall. It
//! grows by eating food and dies when its head enters the wall or its own
//! body. The crate holds the game's rules: movement on a fixed tick, eating,
//! collisions, food placement, and the pause / game-over / restart lifecycle.
//! It draws nothing and reads no device: a front end feeds it key presses and
//! elapsed time, and reads back what to show.

pub mod block;
pub mod direction;
pub mod food;
pub mod game;
pub mod laws;
pub mod rules;

pub use block::{Block, Cell, BOARD_HEIGHT, BOARD_WIDTH, INTERIOR_CELLS};
pub use direction::Direction;
pub use game::{Game, Snake, SnakeView};
pub use rules::{GameView, Key, Screen, MOVING_PERIOD};
