//! The block, a still life.

use vstd::prelude::*;
use crate::config::GOL_MEMORY_SIZE;
use crate::patterns::{
    lemma_neighbors_near, lemma_placed_pattern_evolves, lemma_shows_one_generation, placed,
    shape_neighbors, shows, state_of, turns_into,
};
use crate::rules::{generations, next_generation, next_state};

verus! {

/// The block: two cells side by side above two cells side by side. The
/// reference cell is the first of them.
pub open spec fn block() -> spec_fn(int) -> bool {
    |r: int| r == 0 || r == 1 || r == 50 || r == 51
}

/// The rule turns a block into itself.
pub proof fn lemma_block_turns_into_block()
    ensures
        turns_into(block(), block()),
{
    reveal(turns_into);
    assert forall|r: int| 0 <= r < GOL_MEMORY_SIZE implies next_state(
        state_of(block()(r)),
        shape_neighbors(block(), r),
    ) == state_of(#[trigger] block()(r)) by {
        lemma_neighbors_near(r);
    }
}

/// A block is a still life: wherever it stands, the next generation is the
/// same as this one.
pub proof fn lemma_block_is_still(cells: Seq<i32>, p: int)
    requires
        0 <= p < GOL_MEMORY_SIZE,
        shows(cells, placed(block(), p)),
    ensures
        next_generation(cells) == cells,
{
    lemma_block_turns_into_block();
    lemma_placed_pattern_evolves(cells, block(), block(), p);
    lemma_shows_one_generation(next_generation(cells), cells, placed(block(), p));
}

/// A block stays as it is for any number of generations.
pub proof fn lemma_block_stays_still(cells: Seq<i32>, p: int, n: nat)
    requires
        0 <= p < GOL_MEMORY_SIZE,
        shows(cells, placed(block(), p)),
    ensures
        generations(cells, n) == cells,
    decreases n,
{
    if n > 0 {
        lemma_block_stays_still(cells, p, (n - 1) as nat);
        lemma_block_is_still(cells, p);
    }
}

} // verus!
