//! Where food can be placed.

use vstd::prelude::*;
use vstd::relations::injective_on;
use vstd::set_lib::{lemma_int_range, lemma_len_subset, lemma_map_size, set_int_range};

use crate::block::{Block, Cell, BOARD_HEIGHT, BOARD_WIDTH, INTERIOR_CELLS};
use crate::game::Snake;
use crate::rules::{is_free, is_inside, is_simple};

verus! {

/// The cells inside the wall ring.
pub open spec fn interior_cells() -> Set<Cell> {
    Set::new(|c: Cell| c.is_interior())
}

/// `a` comes before `b` when the board is read row by row from the top, each
/// row from the left.
pub open spec fn scans_before(a: Cell, b: Cell) -> bool {
    a.y < b.y || (a.y == b.y && a.x < b.x)
}

/// The cell inside the wall ring that is number `k` when they are read row by
/// row, counting from zero.
pub open spec fn nth_interior(k: int) -> Cell {
    Cell { x: k % (BOARD_WIDTH - 2) + 1, y: k / (BOARD_WIDTH - 2) + 1 }
}

/// There are [`INTERIOR_CELLS`] cells inside the wall ring.
pub proof fn lemma_interior_count()
    ensures
        interior_cells().finite(),
        interior_cells().len() == INTERIOR_CELLS,
{
    let numbers = set_int_range(0, INTERIOR_CELLS as int);
    let f = |k: int| nth_interior(k);
    lemma_int_range(0, INTERIOR_CELLS as int);
    assert(injective_on(f, numbers));
    assert(numbers.map(f) =~= interior_cells()) by {
        assert forall|c: Cell| interior_cells().contains(c) implies numbers.map(f).contains(
            c,
        ) by {
            let k = (c.y - 1) * (BOARD_WIDTH - 2) + (c.x - 1);
            assert(numbers.contains(k));
        }
    }
    lemma_map_size(numbers, interior_cells(), f);
}

/// A snake shorter than the number of cells inside the wall ring leaves one
/// of them free.
pub proof fn lemma_free_cell_exists(body: Seq<Cell>)
    requires
        body.len() < INTERIOR_CELLS,
    ensures
        exists|c: Cell| is_free(body, c),
{
    if forall|c: Cell| c.is_interior() ==> body.contains(c) {
        lemma_interior_count();
        body.lemma_cardinality_of_set();
        vstd::seq_lib::seq_to_set_is_finite(body);
        lemma_len_subset(interior_cells(), body.to_set());
    }
    let c = choose|c: Cell| c.is_interior() && !body.contains(c);
    assert(is_free(body, c));
}

/// A snake of distinct cells inside the wall ring is no longer than the
/// number of cells there.
pub proof fn lemma_body_fits(body: Seq<Cell>)
    requires
        is_simple(body),
        is_inside(body),
    ensures
        body.len() <= INTERIOR_CELLS,
{
    lemma_interior_count();
    body.unique_seq_to_set();
    assert(body.to_set().subset_of(interior_cells()));
    lemma_len_subset(body.to_set(), interior_cells());
}

/// Finds the first free cell when the board is read row by row, if there is
/// a free cell at all.
pub fn first_free_cell(snake: &Snake) -> (r: Option<Block>)
    ensures
        match r {
            Some(b) => {
                &&& is_free(snake@.body, b@)
                &&& forall|c: Cell| is_free(snake@.body, c) ==> !scans_before(c, b@)
            },
            None => forall|c: Cell| !is_free(snake@.body, c),
        },
{
    let mut y: i32 = 1;
    while y <= BOARD_HEIGHT - 2
        invariant
            1 <= y <= BOARD_HEIGHT - 1,
            forall|c: Cell| is_free(snake@.body, c) ==> c.y >= y,
        decreases BOARD_HEIGHT - y,
    {
        let mut x: i32 = 1;
        while x <= BOARD_WIDTH - 2
            invariant
                1 <= y <= BOARD_HEIGHT - 2,
                1 <= x <= BOARD_WIDTH - 1,
                forall|c: Cell| is_free(snake@.body, c) ==> c.y >= y,
                forall|c: Cell| is_free(snake@.body, c) && c.y == y ==> c.x >= x,
            decreases BOARD_WIDTH - x,
        {
            let candidate = Block::new(x, y);
            if !snake.occupies(candidate) {
                return Some(candidate);
            }
            x += 1;
        }
        y += 1;
    }
    None
}

} // verus!
