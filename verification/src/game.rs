//! The game: a snake, the food, and the state of play.

use vstd::prelude::*;

use crate::block::{Block, Cell, INTERIOR_CELLS};
use crate::direction::Direction;
use crate::food::{first_free_cell, lemma_free_cell_exists};
use crate::rules::{
    hits_self, initial_body, initial_game, is_connected, is_fatal, is_free, is_inside, is_simple,
    lemma_step_keeps_wf, moved, pressed, ticked, GameView, Key, Screen, MOVING_PERIOD,
};

verus! {

/// The cells that a sequence of blocks stands for.
pub open spec fn cells(blocks: Seq<Block>) -> Seq<Cell> {
    blocks.map_values(|b: Block| b@)
}

/// The snake: its cells, head first, and the direction of its next move.
pub struct Snake {
    body: Vec<Block>,
    direction: Direction,
}

/// A snake as mathematical values.
pub struct SnakeView {
    pub body: Seq<Cell>,
    pub heading: Direction,
}

impl View for Snake {
    type V = SnakeView;

    closed spec fn view(&self) -> SnakeView {
        SnakeView { body: cells(self.body@), heading: self.direction }
    }
}

impl Snake {
    /// Makes the snake with which every game starts: three cells in a row,
    /// heading down.
    pub fn new() -> (s: Snake)
        ensures
            s@.body == initial_body(),
            s@.heading == Direction::Down,
    {
        let mut body: Vec<Block> = Vec::new();
        body.push(Block::new(5, 5));
        body.push(Block::new(4, 5));
        body.push(Block::new(3, 5));
        Snake { body, direction: Direction::Down }
    }

    /// Returns the snake's cells, head first.
    pub fn body(&self) -> (r: &Vec<Block>)
        ensures
            cells(r@) == self@.body,
    {
        &self.body
    }

    /// Returns the direction of the next move.
    pub fn direction(&self) -> (r: Direction)
        ensures
            r == self@.heading,
    {
        self.direction
    }

    /// Tells whether the head shares its cell with another part of the snake.
    pub fn head_in_body(&self) -> (r: bool)
        ensures
            r == hits_self(self@.body),
    {
        if self.body.len() == 0 {
            return false;
        }
        let head = self.body[0];
        let mut i: usize = 1;
        while i < self.body.len()
            invariant
                1 <= i <= self.body.len(),
                head == self.body@[0],
                forall|k: int| 1 <= k < i ==> #[trigger] cells(self.body@)[k] != head@,
            decreases self.body.len() - i,
        {
            if self.body[i] == head {
                assert(cells(self.body@)[i as int] == cells(self.body@)[0]);
                return true;
            }
            i += 1;
        }
        false
    }

    /// Tells whether every part of the snake lies inside the wall ring.
    pub fn is_inside(&self) -> (r: bool)
        ensures
            r == is_inside(self@.body),
    {
        let mut i: usize = 0;
        while i < self.body.len()
            invariant
                i <= self.body.len(),
                forall|k: int| 0 <= k < i ==> (#[trigger] cells(self.body@)[k]).is_interior(),
            decreases self.body.len() - i,
        {
            if !self.body[i].is_interior() {
                assert(!cells(self.body@)[i as int].is_interior());
                return false;
            }
            i += 1;
        }
        true
    }

    /// Tells whether no two parts of the snake share a cell.
    pub fn is_simple(&self) -> (r: bool)
        ensures
            r == is_simple(self@.body),
    {
        let ghost body = cells(self.body@);
        let mut j: usize = 0;
        while j < self.body.len()
            invariant
                j <= self.body.len(),
                body == cells(self.body@),
                forall|a: int, b: int| 0 <= a < b < j ==> body[a] != body[b],
            decreases self.body.len() - j,
        {
            let mut i: usize = 0;
            while i < j
                invariant
                    i <= j < self.body.len(),
                    body == cells(self.body@),
                    forall|a: int| 0 <= a < i ==> body[a] != body[j as int],
                decreases j - i,
            {
                if self.body[i] == self.body[j] {
                    assert(body[i as int] == body[j as int]);
                    return false;
                }
                i += 1;
            }
            j += 1;
        }
        true
    }

    /// Tells whether each part of the snake is one step away from the next.
    pub fn is_connected(&self) -> (r: bool)
        ensures
            r == is_connected(self@.body),
    {
        let ghost body = cells(self.body@);
        let mut i: usize = 1;
        while i < self.body.len()
            invariant
                1 <= i,
                body == cells(self.body@),
                forall|k: int|
                    #![trigger body[k]]
                    0 <= k < i - 1 && k < body.len() - 1 ==> body[k].is_adjacent(body[k + 1]),
            decreases self.body.len() - i,
        {
            if !self.body[i - 1].is_adjacent(self.body[i]) {
                assert(!body[i - 1].is_adjacent(body[i - 1 + 1]));
                return false;
            }
            i += 1;
        }
        true
    }

    /// Tells whether a part of the snake other than its tail lies on `block`.
    pub fn occupies_before_tail(&self, block: Block) -> (r: bool)
        ensures
            r == (self@.body.len() > 0 && self@.body.drop_last().contains(block@)),
    {
        if self.body.len() == 0 {
            return false;
        }
        let ghost front = cells(self.body@).drop_last();
        let mut i: usize = 0;
        while i < self.body.len() - 1
            invariant
                i <= self.body.len() - 1,
                front == cells(self.body@).drop_last(),
                forall|k: int| 0 <= k < i ==> front[k] != block@,
            decreases self.body.len() - i,
        {
            if self.body[i] == block {
                assert(front[i as int] == block@);
                return true;
            }
            i += 1;
        }
        false
    }

    /// Tells whether a part of the snake lies on `block`.
    pub fn occupies(&self, block: Block) -> (r: bool)
        ensures
            r == self@.body.contains(block@),
    {
        let mut i: usize = 0;
        while i < self.body.len()
            invariant
                i <= self.body.len(),
                forall|k: int| 0 <= k < i ==> cells(self.body@)[k] != block@,
            decreases self.body.len() - i,
        {
            if self.body[i] == block {
                assert(cells(self.body@)[i as int] == block@);
                return true;
            }
            i += 1;
        }
        false
    }
}

/// The cell that an optional block stands for.
pub open spec fn cell_of(block: Option<Block>) -> Option<Cell> {
    match block {
        Some(b) => Some(b@),
        None => None,
    }
}

/// A game of snake.
pub struct Game {
    snake: Snake,
    food: Option<Block>,
    is_game_over: bool,
    /// Microseconds gathered since the last move.
    refresh_time: u64,
    is_stopped: bool,
    last_block_removed: Option<Block>,
    score: u32,
}

impl View for Game {
    type V = GameView;

    closed spec fn view(&self) -> GameView {
        GameView {
            body: self.snake@.body,
            heading: self.snake@.heading,
            food: cell_of(self.food),
            game_over: self.is_game_over,
            paused: self.is_stopped,
            elapsed: self.refresh_time as nat,
            last_removed: cell_of(self.last_block_removed),
            score: self.score as nat,
        }
    }
}

impl Game {
    /// Starts a game.
    pub fn new() -> (g: Game)
        ensures
            g@ == initial_game(),
            g@.wf(),
    {
        Game {
            snake: Snake::new(),
            food: Some(Block::new(15, 15)),
            is_game_over: false,
            refresh_time: 0,
            is_stopped: false,
            last_block_removed: None,
            score: 0,
        }
    }

    /// Returns the snake.
    pub fn snake(&self) -> (r: &Snake)
        ensures
            r@.body == self@.body,
            r@.heading == self@.heading,
    {
        &self.snake
    }

    /// Returns the food's cell, if there is food.
    pub fn food(&self) -> (r: Option<Block>)
        ensures
            cell_of(r) == self@.food,
    {
        self.food
    }

    /// Returns the number of meals so far.
    pub fn score(&self) -> (r: u32)
        ensures
            r == self@.score,
    {
        self.score
    }

    /// Tells whether the game is over.
    pub fn is_game_over(&self) -> (r: bool)
        ensures
            r == self@.game_over,
    {
        self.is_game_over
    }

    /// Tells whether the game is paused.
    pub fn is_stopped(&self) -> (r: bool)
        ensures
            r == self@.paused,
    {
        self.is_stopped
    }

    /// Returns the microseconds gathered since the last move.
    pub fn refresh_time(&self) -> (r: u64)
        ensures
            r == self@.elapsed,
    {
        self.refresh_time
    }

    /// Tells whether the game is well-formed, as [`Game::update`] asks.
    pub fn is_well_formed(&self) -> (r: bool)
        ensures
            r == self@.wf(),
    {
        if self.refresh_time > MOVING_PERIOD {
            return false;
        }
        if self.is_game_over {
            return true;
        }
        let len = self.snake.body.len();
        if len < 3 || len - 3 > u32::MAX as usize || (len - 3) as u32 != self.score {
            return false;
        }
        match self.food {
            None => false,
            Some(food) => {
                food.is_interior() && !self.snake.occupies_before_tail(food)
                    && self.snake.is_inside() && self.snake.is_simple()
                    && self.snake.is_connected()
            },
        }
    }

    /// Tells whether a meal would leave a free cell for the next food, as
    /// [`Game::update`] asks.
    pub fn has_room(&self) -> (r: bool)
        ensures
            r == self@.has_room(),
    {
        self.is_game_over || self.snake.body.len() < INTERIOR_CELLS
    }

    /// Returns the tail cell that the last move took off, if any.
    pub fn last_block_removed(&self) -> (r: Option<Block>)
        ensures
            cell_of(r) == self@.last_removed,
    {
        self.last_block_removed
    }
}

impl Game {
    /// Moves the snake one cell in its heading: a new head is put in front,
    /// and the tail is taken off and remembered.
    pub fn move_snake(&mut self)
        requires
            old(self)@.body.len() > 0,
            i32::MIN <= old(self)@.body[0].step(old(self)@.heading).x <= i32::MAX,
            i32::MIN <= old(self)@.body[0].step(old(self)@.heading).y <= i32::MAX,
        ensures
            final(self)@ == (GameView {
                body: moved(old(self)@.body, old(self)@.heading),
                last_removed: Some(old(self)@.body.last()),
                ..old(self)@
            }),
    {
        let ghost before = self.snake.body@;
        let new_head = self.snake.body[0].step(self.snake.direction);
        self.snake.body.insert(0, new_head);
        let tail = self.snake.body.pop();
        self.last_block_removed = tail;
        assert(cells(self.snake.body@) =~= moved(cells(before), self.snake.direction));
    }

    /// Tells whether the head lies on the food, and counts the meal if so.
    pub fn is_eating(&mut self) -> (r: bool)
        requires
            old(self)@.body.len() > 0,
            old(self)@.food is Some,
            old(self)@.score < u32::MAX,
        ensures
            r == (old(self)@.food == Some(old(self)@.body[0])),
            final(self)@ == (GameView {
                score: if r {
                    old(self)@.score + 1
                } else {
                    old(self)@.score
                },
                ..old(self)@
            }),
    {
        let head = self.snake.body[0];
        match self.food {
            Some(food) => {
                if head == food {
                    self.score += 1;
                    return true;
                }
                false
            },
            None => false,
        }
    }

    /// Puts the tail that the last move took off back at the snake's end.
    /// Without such a tail the snake stays as it is.
    pub fn restore_tail(&mut self)
        ensures
            final(self)@ == (GameView {
                body: match old(self)@.last_removed {
                    Some(tail) => old(self)@.body.push(tail),
                    None => old(self)@.body,
                },
                ..old(self)@
            }),
    {
        if let Some(block) = self.last_block_removed {
            let ghost before = self.snake.body@;
            self.snake.body.push(block);
            assert(cells(self.snake.body@) =~= cells(before).push(block@));
        }
    }

    /// Ends the game if the snake's head is in the wall or in its body. A
    /// game that is over stays over.
    pub fn check_if_snake_alive(&mut self)
        requires
            old(self)@.body.len() > 0,
        ensures
            final(self)@ == (GameView {
                game_over: old(self)@.game_over || is_fatal(old(self)@.body),
                ..old(self)@
            }),
    {
        let head = self.snake.body[0];
        if !head.is_interior() || self.snake.head_in_body() {
            self.is_game_over = true;
        }
    }
}

impl Game {
    /// Takes a key press.
    ///
    /// A directional key sets the heading, unless it asks the snake to
    /// reverse. `Return` starts a new game when the game is over. `Space`
    /// pauses or resumes. Any other key is ignored.
    pub fn handle_keypress(&mut self, key: Key)
        ensures
            final(self)@ == pressed(old(self)@, key),
            old(self)@.wf() ==> final(self)@.wf(),
            old(self)@.has_room() ==> final(self)@.has_room(),
    {
        match key {
            Key::Up => {
                self.snake.direction = self.snake.direction.turn(Direction::Up);
            },
            Key::Down => {
                self.snake.direction = self.snake.direction.turn(Direction::Down);
            },
            Key::Left => {
                self.snake.direction = self.snake.direction.turn(Direction::Left);
            },
            Key::Right => {
                self.snake.direction = self.snake.direction.turn(Direction::Right);
            },
            Key::Return => {
                if self.is_game_over {
                    *self = Game::new();
                }
            },
            Key::Space => {
                self.is_stopped = !self.is_stopped;
            },
            Key::Other => {},
        }
    }

    /// Says what the next frame shows, and readies the state for it.
    ///
    /// While the game runs the frame shows the field, and nothing changes.
    /// Once the game is over the frame shows the final score, and the snake
    /// and the food are taken off the board.
    pub fn draw_board(&mut self) -> (screen: Screen)
        ensures
            match screen {
                Screen::GameOver { score } => old(self)@.game_over && score == old(self)@.score,
                Screen::Playing { score, paused } => {
                    &&& !old(self)@.game_over
                    &&& score == old(self)@.score
                    &&& paused == old(self)@.paused
                },
            },
            final(self)@ == if old(self)@.game_over {
                GameView { body: Seq::empty(), food: None, ..old(self)@ }
            } else {
                old(self)@
            },
            old(self)@.wf() ==> final(self)@.wf(),
    {
        if self.is_game_over {
            self.food = None;
            self.snake.body.clear();
            assert(cells(self.snake.body@) =~= Seq::<Cell>::empty());
            Screen::GameOver { score: self.score }
        } else {
            Screen::Playing { score: self.score, paused: self.is_stopped }
        }
    }
}

/// Number of random cells tried for the food before the board is searched
/// in order.
pub const PLACEMENT_ATTEMPTS: u64 = u64::MAX;

impl Game {
    /// Puts the food on `candidate` if that cell is free, and says whether it
    /// did.
    pub fn place_food(&mut self, candidate: Block) -> (placed: bool)
        ensures
            placed == is_free(old(self)@.body, candidate@),
            final(self)@ == if placed {
                GameView { food: Some(candidate@), ..old(self)@ }
            } else {
                old(self)@
            },
    {
        if candidate.is_interior() && !self.snake.occupies(candidate) {
            self.food = Some(candidate);
            true
        } else {
            false
        }
    }

    /// Puts the food on a free cell picked at random.
    ///
    /// Random cells inside the wall ring are tried until one is free. Should
    /// [`PLACEMENT_ATTEMPTS`] cells in a row be taken, the food goes to the
    /// first free cell of the board, read row by row. The snake must leave a
    /// cell free.
    pub fn generate_random_food(&mut self)
        requires
            old(self)@.body.len() < INTERIOR_CELLS,
        ensures
            final(self)@.food is Some,
            is_free(old(self)@.body, final(self)@.food.unwrap()),
            final(self)@ == (GameView { food: final(self)@.food, ..old(self)@ }),
    {
        let mut attempts: u64 = 0;
        while attempts < PLACEMENT_ATTEMPTS
            invariant
                self@ == old(self)@,
            decreases PLACEMENT_ATTEMPTS - attempts,
        {
            if self.place_food(Block::random()) {
                return;
            }
            attempts += 1;
        }
        proof {
            lemma_free_cell_exists(self@.body);
        }
        if let Some(block) = first_free_cell(&self.snake) {
            self.food = Some(block);
        }
    }

    /// Advances the game by `delta_time` microseconds.
    ///
    /// A game that is over or paused does not change and gathers no time.
    /// Otherwise the time is added to what was gathered since the last move.
    /// If the sum is more than [`MOVING_PERIOD`], the snake makes one move,
    /// however long the time was: it eats if its head reaches the food, and
    /// the game ends if the head is then in the wall or in the body.
    pub fn update(&mut self, delta_time: u64)
        requires
            old(self)@.wf(),
            old(self)@.has_room(),
        ensures
            ticked(old(self)@, delta_time as nat, final(self)@),
            final(self)@.wf(),
    {
        if self.is_game_over || self.is_stopped {
            return;
        }
        if delta_time > MOVING_PERIOD - self.refresh_time {
            self.move_snake();
            if self.is_eating() {
                self.generate_random_food();
                self.restore_tail();
            }
            self.check_if_snake_alive();
            self.refresh_time = 0;
            proof {
                lemma_step_keeps_wf(old(self)@, self@);
            }
        } else {
            self.refresh_time += delta_time;
        }
    }
}

} // verus!
