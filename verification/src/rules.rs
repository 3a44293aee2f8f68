//! The generation rule, as mathematics over a sequence of cell states.
//!
//! A generation is a sequence of `GOL_MEMORY_SIZE` cells, each `1` (alive) or
//! `0` (dead). The neighbours of a cell are the eight cells whose linear
//! index differs by one of `GOL_NEIGHBORS`, the index space being cyclic.
//! This is deliberately not a two-dimensional torus: the right end of a row
//! is adjacent to the left end of the next row.

use vstd::prelude::*;
use crate::config::{GOL_MEMORY_SIZE, GOL_NEIGHBORS};
use crate::torus::{wrap, wrap_spec};

verus! {

/// A sequence is a generation when it has one entry per cell and every entry
/// is `0` or `1`.
pub open spec fn is_generation(cells: Seq<i32>) -> bool {
    &&& cells.len() == GOL_MEMORY_SIZE
    &&& forall|i: int| 0 <= i < cells.len() ==> cells[i] == 0 || cells[i] == 1
}

/// Index of the neighbour of cell `i` in direction `k`.
pub open spec fn neighbor_index(i: int, k: int) -> int {
    wrap_spec(i + GOL_NEIGHBORS@[k], 0, GOL_MEMORY_SIZE as int)
}

/// `1` if the neighbour of cell `i` in direction `k` is alive, else `0`.
pub open spec fn neighbor_lives(cells: Seq<i32>, i: int, k: int) -> int {
    if cells[neighbor_index(i, k)] == 1 {
        1
    } else {
        0
    }
}

/// Number of live cells among the eight neighbours of cell `i`.
pub open spec fn live_neighbors(cells: Seq<i32>, i: int) -> int {
    neighbor_lives(cells, i, 0) + neighbor_lives(cells, i, 1) + neighbor_lives(cells, i, 2)
        + neighbor_lives(cells, i, 3) + neighbor_lives(cells, i, 4) + neighbor_lives(cells, i, 5)
        + neighbor_lives(cells, i, 6) + neighbor_lives(cells, i, 7)
}

/// Number of live cells among the neighbours of cell `i` in the first `k`
/// directions.
pub open spec fn live_neighbors_among(cells: Seq<i32>, i: int, k: int) -> int
    decreases k,
{
    if k <= 0 {
        0
    } else {
        live_neighbors_among(cells, i, k - 1) + neighbor_lives(cells, i, k - 1)
    }
}

/// Counting direction by direction reaches the neighbour count after all
/// eight directions.
pub proof fn lemma_live_neighbors_among_all(cells: Seq<i32>, i: int)
    ensures
        live_neighbors_among(cells, i, 8) == live_neighbors(cells, i),
{
    reveal_with_fuel(live_neighbors_among, 9);
}

/// State of a cell in the next generation, given its state and the number of
/// its live neighbours: a live cell with two or three live neighbours stays
/// alive, a dead cell with exactly three becomes alive, every other cell is
/// dead.
pub open spec fn next_state(current: i32, neighbors: int) -> i32 {
    if current == 1 && (neighbors == 2 || neighbors == 3) {
        1
    } else if current == 0 && neighbors == 3 {
        1
    } else {
        0
    }
}

/// The generation that follows `cells`. Every cell but the first is decided
/// by the rule from the states in `cells` alone; the first cell is reserved
/// and keeps its state, though it counts as a neighbour like any other.
pub open spec fn next_generation(cells: Seq<i32>) -> Seq<i32> {
    Seq::new(
        cells.len(),
        |i: int|
            if i == 0 {
                cells[0]
            } else {
                next_state(cells[i], live_neighbors(cells, i))
            },
    )
}

/// The generation reached from `cells` after `n` applications of the rule.
pub open spec fn generations(cells: Seq<i32>, n: nat) -> Seq<i32>
    decreases n,
{
    if n == 0 {
        cells
    } else {
        next_generation(generations(cells, (n - 1) as nat))
    }
}

/// One generation more, taken first or taken last, leads to the same cells.
pub proof fn lemma_generations_shift(cells: Seq<i32>, n: nat)
    ensures
        generations(next_generation(cells), n) == generations(cells, n + 1),
    decreases n,
{
    reveal_with_fuel(generations, 2);
    if n > 0 {
        lemma_generations_shift(cells, (n - 1) as nat);
        assert(generations(cells, n + 1) == next_generation(generations(cells, n)));
    }
}

/// The rule has no memory and no choice: equal generations have equal
/// successors, after one step and after any number of steps.
pub proof fn lemma_rule_is_deterministic(a: Seq<i32>, b: Seq<i32>, n: nat)
    requires
        a == b,
    ensures
        next_generation(a) == next_generation(b),
        generations(a, n) == generations(b, n),
{
}

/// Every cell but the first is decided by its own state and its neighbours'
/// states in the generation before, and by nothing else: two generations
/// that agree on a cell and on its eight neighbours agree on that cell in
/// the next generation.
pub proof fn lemma_cell_depends_on_neighborhood(a: Seq<i32>, b: Seq<i32>, i: int)
    requires
        a.len() == b.len(),
        0 <= i < a.len(),
        a[i] == b[i],
        forall|k: int| 0 <= k < 8 ==> a[neighbor_index(i, k)] == b[neighbor_index(i, k)],
    ensures
        next_generation(a)[i] == next_generation(b)[i],
{
    assert forall|k: int| 0 <= k < 8 implies neighbor_lives(a, i, k) == neighbor_lives(b, i, k) by {
        assert(a[neighbor_index(i, k)] == b[neighbor_index(i, k)]);
    }
}

/// Every direction leads from every index, however far outside the grid,
/// to a cell of the grid.
pub proof fn lemma_neighbor_in_grid(i: int, k: int)
    requires
        0 <= k < 8,
    ensures
        0 <= neighbor_index(i, k) < GOL_MEMORY_SIZE,
{
}

/// The index space closes on itself: the first cell is the right neighbour
/// of the last cell and a lower neighbour of the three cells above it, and
/// where it is alive it counts for each of them.
pub proof fn lemma_first_cell_neighbors_last(cells: Seq<i32>)
    requires
        cells.len() == GOL_MEMORY_SIZE,
        cells[0] == 1,
    ensures
        neighbor_index(GOL_MEMORY_SIZE - 1, 3) == 0,
        neighbor_index(GOL_MEMORY_SIZE - 49, 6) == 0,
        neighbor_index(GOL_MEMORY_SIZE - 50, 1) == 0,
        neighbor_index(GOL_MEMORY_SIZE - 51, 7) == 0,
        live_neighbors(cells, GOL_MEMORY_SIZE - 1) >= 1,
        live_neighbors(cells, GOL_MEMORY_SIZE - 49) >= 1,
        live_neighbors(cells, GOL_MEMORY_SIZE - 50) >= 1,
        live_neighbors(cells, GOL_MEMORY_SIZE - 51) >= 1,
{
}

/// The rule maps generations to generations.
pub proof fn lemma_next_generation_is_generation(cells: Seq<i32>)
    requires
        is_generation(cells),
    ensures
        is_generation(next_generation(cells)),
{
}

/// Counts the live cells among the eight neighbours of cell `i`.
pub fn count_live_neighbors(cells: &[i32; GOL_MEMORY_SIZE], i: usize) -> (n: i32)
    requires
        i < GOL_MEMORY_SIZE,
    ensures
        n == live_neighbors(cells@, i as int),
        0 <= n <= 8,
{
    let mut n: i32 = 0;
    let mut k: usize = 0;
    while k < 8
        invariant
            i < GOL_MEMORY_SIZE,
            0 <= k <= 8,
            0 <= n <= k,
            n == live_neighbors_among(cells@, i as int, k as int),
        decreases 8 - k,
    {
        let j: i32 = wrap(GOL_NEIGHBORS[k] + i as i32, 0, GOL_MEMORY_SIZE as i32);
        if cells[j as usize] == 1 {
            n += 1;
        }
        k += 1;
    }
    proof {
        lemma_live_neighbors_among_all(cells@, i as int);
    }
    n
}

/// Applies the rule to one cell.
pub fn next_cell(current: i32, neighbors: i32) -> (r: i32)
    ensures
        r == next_state(current, neighbors as int),
        r == 0 || r == 1,
{
    if (neighbors >= 2 && neighbors <= 3) && current == 1 {
        1
    } else if neighbors == 3 && current == 0 {
        1
    } else {
        0
    }
}

} // verus!
