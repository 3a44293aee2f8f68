//! The glider, which moves by one cell diagonally in four generations.

use vstd::prelude::*;
use crate::config::GOL_MEMORY_SIZE;
use crate::patterns::{
    cell_at, first_cell_rests, lemma_cell_at_near, lemma_neighbors_near,
    lemma_placed_pattern_evolves, placed, shape_neighbors, shows, state_of, turns_into,
};
use crate::rules::{generations, next_generation, next_state};

verus! {

/// The glider in the first of its four phases. The reference cell is the
/// top left corner of the three by three box around it.
pub open spec fn glider() -> spec_fn(int) -> bool {
    |r: int| r == 2 || r == 50 || r == 52 || r == 101 || r == 102
}

/// The glider in its second phase.
pub open spec fn glider_second() -> spec_fn(int) -> bool {
    |r: int| r == 1 || r == 52 || r == 53 || r == 101 || r == 102
}

/// The glider in its third phase.
pub open spec fn glider_third() -> spec_fn(int) -> bool {
    |r: int| r == 2 || r == 53 || r == 101 || r == 102 || r == 103
}

/// The glider in its fourth phase.
pub open spec fn glider_fourth() -> spec_fn(int) -> bool {
    |r: int| r == 51 || r == 53 || r == 102 || r == 103 || r == 152
}

/// The glider in its first phase again, one row down and one column to the
/// right.
pub open spec fn glider_moved() -> spec_fn(int) -> bool {
    |r: int| r == 53 || r == 101 || r == 103 || r == 152 || r == 153
}

/// Whether the rule asks no change of the reserved first cell in any of the
/// four generations that take a glider placed at `p` through its phases.
pub open spec fn glider_spares_first_cell(p: int) -> bool {
    &&& first_cell_rests(glider(), glider_second(), p)
    &&& first_cell_rests(glider_second(), glider_third(), p)
    &&& first_cell_rests(glider_third(), glider_fourth(), p)
    &&& first_cell_rests(glider_fourth(), glider_moved(), p)
}

/// The rule takes a glider from its first phase to its second phase.
pub proof fn lemma_glider_first_turn()
    ensures
        turns_into(glider(), glider_second()),
{
    reveal(turns_into);
    assert forall|r: int| 0 <= r < GOL_MEMORY_SIZE implies next_state(
        state_of(glider()(r)),
        shape_neighbors(glider(), r),
    ) == state_of(#[trigger] glider_second()(r)) by {
        lemma_neighbors_near(r);
    }
}

/// The rule takes a glider from its second phase to its third phase.
pub proof fn lemma_glider_second_turn()
    ensures
        turns_into(glider_second(), glider_third()),
{
    reveal(turns_into);
    assert forall|r: int| 0 <= r < GOL_MEMORY_SIZE implies next_state(
        state_of(glider_second()(r)),
        shape_neighbors(glider_second(), r),
    ) == state_of(#[trigger] glider_third()(r)) by {
        lemma_neighbors_near(r);
    }
}

/// The rule takes a glider from its third phase to its fourth phase.
pub proof fn lemma_glider_third_turn()
    ensures
        turns_into(glider_third(), glider_fourth()),
{
    reveal(turns_into);
    assert forall|r: int| 0 <= r < GOL_MEMORY_SIZE implies next_state(
        state_of(glider_third()(r)),
        shape_neighbors(glider_third(), r),
    ) == state_of(#[trigger] glider_fourth()(r)) by {
        lemma_neighbors_near(r);
    }
}

/// The rule takes a glider from its fourth phase to its first, moved, phase.
pub proof fn lemma_glider_fourth_turn()
    ensures
        turns_into(glider_fourth(), glider_moved()),
{
    reveal(turns_into);
    assert forall|r: int| 0 <= r < GOL_MEMORY_SIZE implies next_state(
        state_of(glider_fourth()(r)),
        shape_neighbors(glider_fourth(), r),
    ) == state_of(#[trigger] glider_moved()(r)) by {
        lemma_neighbors_near(r);
    }
}

/// The moved glider placed at `p` is the glider placed one row down and one
/// column to the right of `p`.
pub proof fn lemma_glider_moved_is_glider(cells: Seq<i32>, p: int)
    requires
        0 <= p < GOL_MEMORY_SIZE,
        shows(cells, placed(glider_moved(), p)),
    ensures
        shows(cells, placed(glider(), cell_at(p, 51))),
{
    let q = cell_at(p, 51);
    lemma_cell_at_near(p, 51);
    assert forall|i: int| 0 <= i < GOL_MEMORY_SIZE implies #[trigger] cells[i] == state_of(
        placed(glider(), q)(i),
    ) by {
        lemma_cell_at_near(i, -p);
        lemma_cell_at_near(i, -q);
        assert(cells[i] == state_of(placed(glider_moved(), p)(i)));
    }
}

/// A glider moves by one cell diagonally in four generations: the fourth
/// generation after a glider at `p` is the glider one row down and one
/// column to the right of `p`. This holds wherever the reserved first cell
/// is not among the cells that change on the way.
pub proof fn lemma_glider_moves(cells: Seq<i32>, p: int)
    requires
        0 <= p < GOL_MEMORY_SIZE,
        shows(cells, placed(glider(), p)),
        glider_spares_first_cell(p),
    ensures
        shows(generations(cells, 4), placed(glider(), cell_at(p, 51))),
{
    lemma_glider_first_turn();
    lemma_glider_second_turn();
    lemma_glider_third_turn();
    lemma_glider_fourth_turn();
    let second = next_generation(cells);
    let third = next_generation(second);
    let fourth = next_generation(third);
    let moved = next_generation(fourth);
    lemma_placed_pattern_evolves(cells, glider(), glider_second(), p);
    lemma_placed_pattern_evolves(second, glider_second(), glider_third(), p);
    lemma_placed_pattern_evolves(third, glider_third(), glider_fourth(), p);
    lemma_placed_pattern_evolves(fourth, glider_fourth(), glider_moved(), p);
    lemma_glider_moved_is_glider(moved, p);
    assert(generations(cells, 4) == moved) by {
        reveal_with_fuel(generations, 5);
    }
}

} // verus!
