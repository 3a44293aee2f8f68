//! The blinker, an oscillator of period two.

use vstd::prelude::*;
use crate::config::GOL_MEMORY_SIZE;
use crate::patterns::{
    first_cell_rests, lemma_neighbors_near, lemma_placed_pattern_evolves,
    lemma_shows_one_generation, placed, shape_neighbors, shows, state_of, turns_into,
};
use crate::rules::{generations, next_generation, next_state};

verus! {

/// The upright blinker: three cells in a column. The reference cell is the
/// middle one.
pub open spec fn blinker_upright() -> spec_fn(int) -> bool {
    |r: int| r == GOL_MEMORY_SIZE - 50 || r == 0 || r == 50
}

/// The flat blinker: three cells in a row. The reference cell is the middle
/// one.
pub open spec fn blinker_flat() -> spec_fn(int) -> bool {
    |r: int| r == GOL_MEMORY_SIZE - 1 || r == 0 || r == 1
}

/// The rule turns an upright blinker into a flat one and a flat one into an
/// upright one.
pub proof fn lemma_blinker_turns()
    ensures
        turns_into(blinker_upright(), blinker_flat()),
        turns_into(blinker_flat(), blinker_upright()),
{
    reveal(turns_into);
    assert forall|r: int| 0 <= r < GOL_MEMORY_SIZE implies next_state(
        state_of(blinker_upright()(r)),
        shape_neighbors(blinker_upright(), r),
    ) == state_of(#[trigger] blinker_flat()(r)) by {
        lemma_neighbors_near(r);
    }
    assert forall|r: int| 0 <= r < GOL_MEMORY_SIZE implies next_state(
        state_of(blinker_flat()(r)),
        shape_neighbors(blinker_flat(), r),
    ) == state_of(#[trigger] blinker_upright()(r)) by {
        lemma_neighbors_near(r);
    }
}

/// A blinker oscillates with period two: an upright blinker becomes the
/// flat blinker through the same middle cell, and that one becomes the
/// upright blinker again. This holds wherever the reserved first cell is
/// not one of the four outer cells of the two.
pub proof fn lemma_blinker_oscillates(cells: Seq<i32>, p: int)
    requires
        0 <= p < GOL_MEMORY_SIZE,
        shows(cells, placed(blinker_upright(), p)),
        first_cell_rests(blinker_upright(), blinker_flat(), p),
    ensures
        shows(next_generation(cells), placed(blinker_flat(), p)),
        generations(cells, 2) == cells,
{
    lemma_blinker_turns();
    let flat = next_generation(cells);
    lemma_placed_pattern_evolves(cells, blinker_upright(), blinker_flat(), p);
    lemma_placed_pattern_evolves(flat, blinker_flat(), blinker_upright(), p);
    lemma_shows_one_generation(next_generation(flat), cells, placed(blinker_upright(), p));
    assert(generations(cells, 2) == next_generation(flat)) by {
        reveal_with_fuel(generations, 3);
    }
}

/// An upright blinker is back after every even number of generations and
/// flat after every odd number, under the same condition.
pub proof fn lemma_blinker_keeps_oscillating(cells: Seq<i32>, p: int, n: nat)
    requires
        0 <= p < GOL_MEMORY_SIZE,
        shows(cells, placed(blinker_upright(), p)),
        first_cell_rests(blinker_upright(), blinker_flat(), p),
    ensures
        generations(cells, 2 * n) == cells,
        shows(generations(cells, 2 * n + 1), placed(blinker_flat(), p)),
    decreases n,
{
    reveal_with_fuel(generations, 3);
    lemma_blinker_oscillates(cells, p);
    if n > 0 {
        lemma_blinker_keeps_oscillating(cells, p, (n - 1) as nat);
        let before = generations(cells, (2 * n - 2) as nat);
        assert(generations(cells, 2 * n) == next_generation(next_generation(before)));
    }
    assert(generations(cells, 2 * n + 1) == next_generation(generations(cells, 2 * n)));
}

/// The same, starting from the flat blinker.
pub proof fn lemma_flat_blinker_oscillates(cells: Seq<i32>, p: int)
    requires
        0 <= p < GOL_MEMORY_SIZE,
        shows(cells, placed(blinker_flat(), p)),
        first_cell_rests(blinker_flat(), blinker_upright(), p),
    ensures
        shows(next_generation(cells), placed(blinker_upright(), p)),
        generations(cells, 2) == cells,
{
    lemma_blinker_turns();
    let upright = next_generation(cells);
    lemma_placed_pattern_evolves(cells, blinker_flat(), blinker_upright(), p);
    lemma_placed_pattern_evolves(upright, blinker_upright(), blinker_flat(), p);
    lemma_shows_one_generation(next_generation(upright), cells, placed(blinker_flat(), p));
    assert(generations(cells, 2) == next_generation(upright)) by {
        reveal_with_fuel(generations, 3);
    }
}

} // verus!
