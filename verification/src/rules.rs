//! The rules of the game, stated over mathematical values.
//!
//! A game is seen as a [`GameView`]. Each rule is a spec function from views
//! to views, or, where chance takes part, a relation between the view before
//! and the view after.

use vstd::prelude::*;

use crate::block::{Cell, INTERIOR_CELLS};
use crate::direction::Direction;

verus! {

/// Time between two moves of the snake, in microseconds.
pub const MOVING_PERIOD: u64 = 200_000;

/// A key press as the game understands it.
#[derive(Clone, Copy, Debug, PartialEq, Eq, Structural)]
pub enum Key {
    Up,
    Down,
    Left,
    Right,
    /// Restarts a game that is over.
    Return,
    /// Pauses and resumes.
    Space,
    /// Any key without a meaning in the game.
    Other,
}

/// What a frame shows.
#[derive(Clone, Copy, Debug, PartialEq, Eq, Structural)]
pub enum Screen {
    /// The field with the snake and the food, the score, and a hint on how to
    /// pause or, while paused, on how to go on.
    Playing { score: u32, paused: bool },
    /// The game-over overlay with the final score.
    GameOver { score: u32 },
}

/// The state of a game as mathematical values.
pub struct GameView {
    /// The snake's cells, head first.
    pub body: Seq<Cell>,
    /// The direction of the next move.
    pub heading: Direction,
    /// The cell that holds the food, if any.
    pub food: Option<Cell>,
    pub game_over: bool,
    pub paused: bool,
    /// Microseconds gathered since the last move.
    pub elapsed: nat,
    /// The tail cell that the last move took off.
    pub last_removed: Option<Cell>,
    pub score: nat,
}

/// No two parts of `body` share a cell.
pub open spec fn is_simple(body: Seq<Cell>) -> bool {
    forall|i: int, j: int| 0 <= i < j < body.len() ==> body[i] != body[j]
}

/// Every part of `body` lies inside the wall ring.
pub open spec fn is_inside(body: Seq<Cell>) -> bool {
    forall|i: int| 0 <= i < body.len() ==> (#[trigger] body[i]).is_interior()
}

/// Each part of `body` is one step away from the next.
pub open spec fn is_connected(body: Seq<Cell>) -> bool {
    forall|i: int|
        #![trigger body[i]]
        0 <= i < body.len() - 1 ==> body[i].is_adjacent(body[i + 1])
}

impl GameView {
    /// The game is not over.
    pub open spec fn alive(self) -> bool {
        !self.game_over
    }

    /// What holds of a game between two ticks.
    ///
    /// The time gathered never exceeds the period. While the game is not
    /// over, the snake is a connected line of distinct cells inside the wall
    /// ring, three cells longer than the score; and the food lies inside the
    /// wall ring, on no part of the snake but possibly its tail: food is
    /// placed before the tail that a meal restores is put back.
    pub open spec fn wf(self) -> bool {
        &&& self.elapsed <= MOVING_PERIOD
        &&& self.alive() ==> {
            &&& self.body.len() == self.score + 3
            &&& is_inside(self.body)
            &&& is_simple(self.body)
            &&& is_connected(self.body)
            &&& self.food is Some
            &&& is_free(self.body.drop_last(), self.food.unwrap())
        }
    }

    /// A meal would leave a free cell for the next food: the game is over, or
    /// the snake is shorter than the number of cells inside the wall ring.
    pub open spec fn has_room(self) -> bool {
        self.alive() ==> self.body.len() < INTERIOR_CELLS
    }
}

/// The snake at the start of a game, head first.
pub open spec fn initial_body() -> Seq<Cell> {
    seq![Cell { x: 5, y: 5 }, Cell { x: 4, y: 5 }, Cell { x: 3, y: 5 }]
}

/// The food's cell at the start of a game.
pub open spec fn initial_food() -> Cell {
    Cell { x: 15, y: 15 }
}

/// The state in which every game starts.
pub open spec fn initial_game() -> GameView {
    GameView {
        body: initial_body(),
        heading: Direction::Down,
        food: Some(initial_food()),
        game_over: false,
        paused: false,
        elapsed: 0,
        last_removed: None,
        score: 0,
    }
}

/// The body after one move in direction `heading`: a new head one step ahead
/// of the old one, followed by the old body without its tail.
pub open spec fn moved(body: Seq<Cell>, heading: Direction) -> Seq<Cell>
    recommends
        body.len() > 0,
{
    seq![body[0].step(heading)] + body.drop_last()
}

/// The head shares its cell with another part of the body.
pub open spec fn hits_self(body: Seq<Cell>) -> bool {
    exists|i: int| 1 <= i < body.len() && #[trigger] body[i] == body[0]
}

/// The snake with this body is dead: its head is in the wall or in its body.
pub open spec fn is_fatal(body: Seq<Cell>) -> bool
    recommends
        body.len() > 0,
{
    body[0].hits_wall() || hits_self(body)
}

/// `cell` is inside the wall ring and no part of `body` lies on it.
pub open spec fn is_free(body: Seq<Cell>, cell: Cell) -> bool {
    cell.is_interior() && !body.contains(cell)
}

/// The direction that a key asks for, if it is a directional key.
pub open spec fn key_direction(key: Key) -> Option<Direction> {
    match key {
        Key::Up => Some(Direction::Up),
        Key::Down => Some(Direction::Down),
        Key::Left => Some(Direction::Left),
        Key::Right => Some(Direction::Right),
        _ => None,
    }
}

/// The state after a key press.
///
/// A directional key sets the heading unless it asks to reverse. `Return`
/// starts a new game, but only when the game is over. `Space` flips the pause
/// flag at any time. Any other key changes nothing.
pub open spec fn pressed(g: GameView, key: Key) -> GameView {
    match key {
        Key::Return => if g.game_over {
            initial_game()
        } else {
            g
        },
        Key::Space => GameView { paused: !g.paused, ..g },
        Key::Other => g,
        _ => GameView { heading: g.heading.turned(key_direction(key).unwrap()), ..g },
    }
}

/// `post` is a possible outcome of one move step from `pre`.
///
/// The snake moves one cell. If the new head lies on the food, the score
/// grows by one, the tail that the move took off is put back, and the food
/// goes to a cell that was free when the snake had moved. Then the game is
/// over if the head is in the wall or in the body. The step also empties the
/// time gathered.
pub open spec fn stepped(pre: GameView, post: GameView) -> bool
    recommends
        pre.body.len() > 0,
{
    let after_move = moved(pre.body, pre.heading);
    let eats = pre.food == Some(after_move[0]);
    &&& post.heading == pre.heading
    &&& post.paused == pre.paused
    &&& post.elapsed == 0
    &&& post.last_removed == Some(pre.body.last())
    &&& post.game_over == (pre.game_over || is_fatal(post.body))
    &&& if eats {
        &&& post.score == pre.score + 1
        &&& post.body == after_move.push(pre.body.last())
        &&& post.food is Some
        &&& is_free(after_move, post.food.unwrap())
    } else {
        &&& post.score == pre.score
        &&& post.body == after_move
        &&& post.food == pre.food
    }
}

/// `post` is a possible outcome of a tick of `delta` microseconds from `pre`.
///
/// A game that is over or paused does not change, and gathers no time.
/// Otherwise the time is added to what was gathered; if the sum is more than
/// [`MOVING_PERIOD`], one move step is made, and never more than one.
pub open spec fn ticked(pre: GameView, delta: nat, post: GameView) -> bool {
    if pre.game_over || pre.paused {
        post == pre
    } else if pre.elapsed + delta > MOVING_PERIOD {
        stepped(pre, post)
    } else {
        post == (GameView { elapsed: pre.elapsed + delta, ..pre })
    }
}

/// Every game starts in a well-formed state.
pub proof fn lemma_initial_game_wf()
    ensures
        initial_game().wf(),
        initial_game().has_room(),
{
}

/// A move step leaves a well-formed game well-formed.
pub proof fn lemma_step_keeps_wf(pre: GameView, post: GameView)
    requires
        pre.wf(),
        pre.alive(),
        stepped(pre, post),
    ensures
        post.wf(),
{
    if post.alive() {
        let food = post.food.unwrap();
        assert(is_inside(post.body));
        assert(is_simple(post.body));
        assert(is_connected(post.body));
        assert(!post.body.drop_last().contains(food));
    }
}

} // verus!
