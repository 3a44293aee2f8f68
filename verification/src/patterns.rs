//! Well-known patterns and how the rule moves them.
//!
//! The index space is cyclic and the eight directions are the same for
//! every cell, so a pattern fares alike wherever it is placed. The one
//! exception is the reserved first cell, which the rule never rewrites: a
//! pattern evolves as usual only where it does not ask that cell to change.

pub mod blinker;
pub mod block;
pub mod glider;

use vstd::prelude::*;
use crate::config::{GOL_MEMORY_SIZE, GOL_NEIGHBORS};
use crate::rules::{live_neighbors, neighbor_index, neighbor_lives, next_generation, next_state};
use crate::torus::wrap_spec;

verus! {

/// The cell `d` places after cell `p` in the cyclic index space.
pub open spec fn cell_at(p: int, d: int) -> int {
    wrap_spec(p + d, 0, GOL_MEMORY_SIZE as int)
}

/// How many places cell `i` lies after cell `p` in the cyclic index space.
pub open spec fn places_after(p: int, i: int) -> int {
    wrap_spec(i - p, 0, GOL_MEMORY_SIZE as int)
}

/// `1` for a live cell and `0` for a dead one.
pub open spec fn state_of(alive: bool) -> i32 {
    if alive {
        1
    } else {
        0
    }
}

/// Whether `cells` is the generation in which exactly the cells picked by
/// `live` are alive.
pub open spec fn shows(cells: Seq<i32>, live: spec_fn(int) -> bool) -> bool {
    &&& cells.len() == GOL_MEMORY_SIZE
    &&& forall|i: int| 0 <= i < GOL_MEMORY_SIZE ==> #[trigger] cells[i] == state_of(live(i))
}

/// Only one generation shows a given choice of live cells.
pub proof fn lemma_shows_one_generation(a: Seq<i32>, b: Seq<i32>, live: spec_fn(int) -> bool)
    requires
        shows(a, live),
        shows(b, live),
    ensures
        a == b,
{
    assert(a =~= b);
}

/// The pattern `shape`, given by the places of its live cells after a
/// reference cell, with cell `p` as that reference.
pub open spec fn placed(shape: spec_fn(int) -> bool, p: int) -> spec_fn(int) -> bool {
    |i: int| shape(places_after(p, i))
}

/// Number of live cells of `shape` among the eight neighbours of place `r`,
/// in the order of `GOL_NEIGHBORS`.
pub open spec fn shape_neighbors(shape: spec_fn(int) -> bool, r: int) -> int {
    state_of(shape(cell_at(r, -50))) + state_of(shape(cell_at(r, 50))) + state_of(
        shape(cell_at(r, -1)),
    ) + state_of(shape(cell_at(r, 1))) + state_of(shape(cell_at(r, -51))) + state_of(
        shape(cell_at(r, -49)),
    ) + state_of(shape(cell_at(r, 49))) + state_of(shape(cell_at(r, 51)))
}

/// Whether the rule, applied at every place, turns `shape` into `next`.
#[verifier::opaque]
pub open spec fn turns_into(shape: spec_fn(int) -> bool, next: spec_fn(int) -> bool) -> bool {
    forall|r: int|
        0 <= r < GOL_MEMORY_SIZE ==> next_state(state_of(shape(r)), shape_neighbors(shape, r))
            == state_of(#[trigger] next(r))
}

/// Whether the rule asks no change of the reserved first cell when `shape`,
/// placed at `p`, is to become `next`: the cell is alive in both or in
/// neither.
pub open spec fn first_cell_rests(
    shape: spec_fn(int) -> bool,
    next: spec_fn(int) -> bool,
    p: int,
) -> bool {
    shape(places_after(p, 0)) == next(places_after(p, 0))
}

/// Reduction into the grid of an index that lies less than one grid length
/// outside it.
pub proof fn lemma_cell_at_near(p: int, d: int)
    requires
        -GOL_MEMORY_SIZE <= p + d < 2 * GOL_MEMORY_SIZE,
    ensures
        cell_at(p, d) == (if p + d < 0 {
            p + d + GOL_MEMORY_SIZE
        } else if p + d >= GOL_MEMORY_SIZE {
            p + d - GOL_MEMORY_SIZE
        } else {
            p + d
        }),
{
}

/// Reduction into the grid of the eight neighbours of a place.
pub proof fn lemma_neighbors_near(r: int)
    requires
        0 <= r < GOL_MEMORY_SIZE,
    ensures
        cell_at(r, -50) == (if r < 50 {
            r - 50 + GOL_MEMORY_SIZE
        } else {
            r - 50
        }),
        cell_at(r, -1) == (if r < 1 {
            r - 1 + GOL_MEMORY_SIZE
        } else {
            r - 1
        }),
        cell_at(r, -51) == (if r < 51 {
            r - 51 + GOL_MEMORY_SIZE
        } else {
            r - 51
        }),
        cell_at(r, -49) == (if r < 49 {
            r - 49 + GOL_MEMORY_SIZE
        } else {
            r - 49
        }),
        cell_at(r, 50) == (if r + 50 >= GOL_MEMORY_SIZE {
            r + 50 - GOL_MEMORY_SIZE
        } else {
            r + 50
        }),
        cell_at(r, 1) == (if r + 1 >= GOL_MEMORY_SIZE {
            r + 1 - GOL_MEMORY_SIZE
        } else {
            r + 1
        }),
        cell_at(r, 49) == (if r + 49 >= GOL_MEMORY_SIZE {
            r + 49 - GOL_MEMORY_SIZE
        } else {
            r + 49
        }),
        cell_at(r, 51) == (if r + 51 >= GOL_MEMORY_SIZE {
            r + 51 - GOL_MEMORY_SIZE
        } else {
            r + 51
        }),
{
}

/// The neighbour of cell `i` in direction `k` lies, seen from `p`, where the
/// neighbour of the place of `i` lies.
pub proof fn lemma_neighbor_place(p: int, i: int, k: int)
    requires
        0 <= p < GOL_MEMORY_SIZE,
        0 <= i < GOL_MEMORY_SIZE,
        0 <= k < 8,
    ensures
        0 <= neighbor_index(i, k) < GOL_MEMORY_SIZE,
        places_after(p, neighbor_index(i, k)) == cell_at(
            places_after(p, i),
            GOL_NEIGHBORS@[k] as int,
        ),
{
    let d = GOL_NEIGHBORS@[k] as int;
    assert(-51 <= d <= 51);
    lemma_cell_at_near(i, d);
    lemma_cell_at_near(i, -p);
    lemma_cell_at_near(neighbor_index(i, k), -p);
    lemma_cell_at_near(places_after(p, i), d);
}

/// A pattern evolves alike wherever it is placed: where the rule turns
/// `shape` into `next`, and the reserved first cell is alive in both or in
/// neither, the generation after `shape` placed at `p` is `next` placed at
/// `p`.
pub proof fn lemma_placed_pattern_evolves(
    cells: Seq<i32>,
    shape: spec_fn(int) -> bool,
    next: spec_fn(int) -> bool,
    p: int,
)
    requires
        0 <= p < GOL_MEMORY_SIZE,
        shows(cells, placed(shape, p)),
        turns_into(shape, next),
        first_cell_rests(shape, next, p),
    ensures
        shows(next_generation(cells), placed(next, p)),
{
    reveal(turns_into);
    let after = next_generation(cells);
    assert forall|i: int| 0 <= i < GOL_MEMORY_SIZE implies #[trigger] after[i] == state_of(
        placed(next, p)(i),
    ) by {
        let r = places_after(p, i);
        lemma_cell_at_near(i, -p);
        assert(cells[i] == state_of(shape(r)));
        if i != 0 {
            assert forall|k: int| 0 <= k < 8 implies neighbor_lives(cells, i, k) == state_of(
                shape(cell_at(r, GOL_NEIGHBORS@[k] as int)),
            ) by {
                lemma_neighbor_place(p, i, k);
                let j = neighbor_index(i, k);
                assert(cells[j] == state_of(placed(shape, p)(j)));
            }
            assert(live_neighbors(cells, i) == shape_neighbors(shape, r));
            assert(next_state(state_of(shape(r)), shape_neighbors(shape, r)) == state_of(next(r)));
        }
    }
}

} // verus!
