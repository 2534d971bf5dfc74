//! Laws of the game, proved from its rules.

use vstd::prelude::*;

use crate::block::{Cell, INTERIOR_CELLS};
use crate::direction::Direction;
use crate::food::lemma_body_fits;
use crate::rules::{
    hits_self, initial_body, initial_food, initial_game, is_fatal, is_free, key_direction,
    lemma_initial_game_wf, moved, pressed, stepped, ticked, GameView, Key, MOVING_PERIOD,
};

verus! {

/// A directional key sets the heading to its direction, unless that is the
/// reverse of the current heading: then the key changes nothing. No
/// directional key changes anything but the heading.
pub proof fn law_heading_follows_key(g: GameView, key: Key)
    requires
        key_direction(key) is Some,
    ensures
        key_direction(key).unwrap() != g.heading.spec_opposite() ==> pressed(g, key).heading
            == key_direction(key).unwrap(),
        key_direction(key).unwrap() == g.heading.spec_opposite() ==> pressed(g, key) == g,
        pressed(g, key) == (GameView { heading: pressed(g, key).heading, ..g }),
{
}

/// Reversing twice gives the direction back, no direction is its own
/// reverse, and a turn never reverses the snake.
pub proof fn law_opposite(d: Direction, requested: Direction)
    ensures
        d.spec_opposite().spec_opposite() == d,
        d.spec_opposite() != d,
        d.turned(requested) != d.spec_opposite(),
{
}

/// The sum of the steps of a path, as a change of `x` and a change of `y`.
pub open spec fn displacement(path: Seq<Direction>) -> (int, int)
    decreases path.len(),
{
    if path.len() == 0 {
        (0, 0)
    } else {
        let rest = displacement(path.drop_last());
        (rest.0 + path.last().dx(), rest.1 + path.last().dy())
    }
}

/// The body after one move for each direction of `path`, in order.
pub open spec fn walked(body: Seq<Cell>, path: Seq<Direction>) -> Seq<Cell>
    decreases path.len(),
{
    if path.len() == 0 {
        body
    } else {
        moved(walked(body, path.drop_last()), path.last())
    }
}

/// Moving along a path keeps the snake's length and carries its head by the
/// sum of the path's steps.
pub proof fn law_walk(body: Seq<Cell>, path: Seq<Direction>)
    requires
        body.len() > 0,
    ensures
        walked(body, path).len() == body.len(),
        walked(body, path)[0].x == body[0].x + displacement(path).0,
        walked(body, path)[0].y == body[0].y + displacement(path).1,
    decreases path.len(),
{
    if path.len() > 0 {
        law_walk(body, path.drop_last());
    }
}

/// A move step on which the score stays eats nothing: the snake just moves.
pub proof fn law_step_without_meal(pre: GameView, post: GameView)
    requires
        pre.body.len() > 0,
        stepped(pre, post),
        post.score == pre.score,
    ensures
        post.body == moved(pre.body, pre.heading),
        post.food == pre.food,
{
}

/// Step number `i` of a run of move steps: it leads from `states[i]`, turned
/// to `headings[i]`, to `states[i + 1]`, and eats nothing.
pub open spec fn is_step_without_meal(
    states: Seq<GameView>,
    headings: Seq<Direction>,
    i: int,
) -> bool {
    &&& stepped(GameView { heading: headings[i], ..states[i] }, states[i + 1])
    &&& states[i + 1].score == states[i].score
}

/// After any number of move steps without a meal, with any heading at each
/// step, the snake is as long as before and its head has advanced by one
/// cell per step along the headings taken.
///
/// `states` holds the game before the first step and after each step;
/// `headings` holds the heading with which each step was made.
pub proof fn law_moves_without_meal(states: Seq<GameView>, headings: Seq<Direction>)
    requires
        states.len() == headings.len() + 1,
        states[0].body.len() > 0,
        forall|i: int|
            0 <= i < headings.len() ==> #[trigger] is_step_without_meal(states, headings, i),
    ensures
        states.last().body == walked(states[0].body, headings),
        states.last().body.len() == states[0].body.len(),
        states.last().body[0].x == states[0].body[0].x + displacement(headings).0,
        states.last().body[0].y == states[0].body[0].y + displacement(headings).1,
    decreases headings.len(),
{
    if headings.len() > 0 {
        let n = headings.len() as int;
        let earlier = states.drop_last();
        let path = headings.drop_last();
        assert forall|i: int| 0 <= i < path.len() implies #[trigger] is_step_without_meal(
            earlier,
            path,
            i,
        ) by {
            assert(is_step_without_meal(states, headings, i));
        }
        law_moves_without_meal(earlier, path);
        law_walk(states[0].body, path);
        assert(is_step_without_meal(states, headings, n - 1));
        law_step_without_meal(GameView { heading: headings[n - 1], ..states[n - 1] }, states[n]);
    }
    law_walk(states[0].body, headings);
}

/// A meal adds one to the score and one cell to the snake, and moves the
/// food to a cell inside the wall ring on which no part of the snake lay
/// when it had moved, that is, no part but the tail that the meal restores.
pub proof fn law_meal(pre: GameView, post: GameView)
    requires
        pre.body.len() > 0,
        stepped(pre, post),
        pre.food == Some(pre.body[0].step(pre.heading)),
    ensures
        post.score == pre.score + 1,
        post.body.len() == pre.body.len() + 1,
        post.body == seq![pre.body[0].step(pre.heading)] + pre.body,
        post.food is Some,
        is_free(post.body.drop_last(), post.food.unwrap()),
{
}

/// A move step of a running game ends it exactly when the head then lies in
/// the wall or on another part of the snake. In a well-formed game the head
/// comes from inside the wall ring, so the wall it can reach is the ring.
pub proof fn law_game_over_iff_collision(pre: GameView, post: GameView)
    requires
        pre.body.len() > 0,
        pre.alive(),
        stepped(pre, post),
    ensures
        post.game_over <==> post.body[0].hits_wall() || hits_self(post.body),
        post.body[0] == pre.body[0].step(pre.heading),
        pre.wf() ==> (post.body[0].hits_wall() <==> post.body[0].in_wall_ring()),
{
}

/// While a well-formed game runs, the snake fits inside the wall ring: it
/// has at most as many cells as there are. So the room that a tick asks for
/// is missing only when the snake fills the board.
pub proof fn law_running_snake_fits(g: GameView)
    requires
        g.wf(),
        g.alive(),
    ensures
        g.body.len() <= INTERIOR_CELLS,
        !g.has_room() <==> g.body.len() == INTERIOR_CELLS,
{
    lemma_body_fits(g.body);
}

/// A snake whose head has reached the wall ring is dead.
pub proof fn law_wall_is_fatal(body: Seq<Cell>)
    requires
        body.len() > 0,
        body[0].in_wall_ring(),
    ensures
        is_fatal(body),
{
}

/// Tick number `i` of a run of ticks: it leads from `states[i]` to
/// `states[i + 1]` in `deltas[i]` microseconds.
pub open spec fn is_tick(states: Seq<GameView>, deltas: Seq<nat>, i: int) -> bool {
    ticked(states[i], deltas[i], states[i + 1])
}

/// Ticks change nothing while the game is over or paused, however many
/// there are and however long they take.
///
/// `states` holds the game before the first tick and after each tick;
/// `deltas` holds the time of each tick.
pub proof fn law_idle_ticks(states: Seq<GameView>, deltas: Seq<nat>)
    requires
        states.len() == deltas.len() + 1,
        states[0].game_over || states[0].paused,
        forall|i: int| 0 <= i < deltas.len() ==> #[trigger] is_tick(states, deltas, i),
    ensures
        forall|i: int| 0 <= i < states.len() ==> #[trigger] states[i] == states[0],
    decreases deltas.len(),
{
    if deltas.len() > 0 {
        let n = deltas.len() as int;
        let earlier = states.drop_last();
        let times = deltas.drop_last();
        assert forall|i: int| 0 <= i < times.len() implies #[trigger] is_tick(
            earlier,
            times,
            i,
        ) by {
            assert(is_tick(states, deltas, i));
        }
        law_idle_ticks(earlier, times);
        assert(earlier[n - 1] == states[n - 1]);
        assert(is_tick(states, deltas, n - 1));
        assert forall|i: int| 0 <= i < states.len() implies #[trigger] states[i]
            == states[0] by {
            if i < n {
                assert(earlier[i] == states[i]);
            }
        }
    }
}

/// The sum of the times of a run of ticks.
pub open spec fn total(deltas: Seq<nat>) -> nat
    decreases deltas.len(),
{
    if deltas.len() == 0 {
        0
    } else {
        total(deltas.drop_last()) + deltas.last()
    }
}

/// A running game makes no move as long as the time gathered stays within
/// the period: the ticks only add their times to it.
///
/// `states` holds the game before the first tick and after each tick;
/// `deltas` holds the time of each tick.
pub proof fn law_gathering_ticks(states: Seq<GameView>, deltas: Seq<nat>)
    requires
        states.len() == deltas.len() + 1,
        states[0].alive(),
        !states[0].paused,
        forall|i: int| 0 <= i < deltas.len() ==> #[trigger] is_tick(states, deltas, i),
        states[0].elapsed + total(deltas) <= MOVING_PERIOD,
    ensures
        states.last() == (GameView {
            elapsed: states[0].elapsed + total(deltas),
            ..states[0]
        }),
    decreases deltas.len(),
{
    if deltas.len() > 0 {
        let n = deltas.len() as int;
        let earlier = states.drop_last();
        let times = deltas.drop_last();
        assert forall|i: int| 0 <= i < times.len() implies #[trigger] is_tick(
            earlier,
            times,
            i,
        ) by {
            assert(is_tick(states, deltas, i));
        }
        law_gathering_ticks(earlier, times);
        assert(is_tick(states, deltas, n - 1));
    }
}

/// A running game whose gathered time passes the period with a tick makes
/// exactly one move step on that tick, and starts gathering anew. Until
/// then it only gathers time.
pub proof fn law_tick_moves_once(pre: GameView, delta: nat, post: GameView)
    requires
        pre.alive(),
        !pre.paused,
        ticked(pre, delta, post),
    ensures
        pre.elapsed + delta > MOVING_PERIOD ==> stepped(pre, post) && post.elapsed == 0,
        pre.elapsed + delta <= MOVING_PERIOD ==> post == (GameView {
            elapsed: pre.elapsed + delta,
            ..pre
        }),
{
}

/// Pausing and resuming leaves the time gathered as it was.
pub proof fn law_pause_keeps_time(g: GameView)
    ensures
        pressed(g, Key::Space).elapsed == g.elapsed,
        pressed(pressed(g, Key::Space), Key::Space) == g,
{
}

/// `Return` restarts a game that is over: the score is zero, the snake is
/// the three cells of the start, the game runs, and the food lies on a free
/// cell. While the game runs, `Return` does nothing.
pub proof fn law_restart(g: GameView)
    ensures
        g.game_over ==> pressed(g, Key::Return) == initial_game(),
        !g.game_over ==> pressed(g, Key::Return) == g,
        initial_game().score == 0,
        initial_game().body == initial_body(),
        !initial_game().game_over,
        initial_game().food == Some(initial_food()),
        is_free(initial_body(), initial_food()),
        initial_game().wf(),
{
    lemma_initial_game_wf();
    assert(!initial_body().contains(initial_food()));
}

} // verus!
