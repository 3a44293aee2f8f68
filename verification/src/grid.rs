//! The grid of one generation, and the step to the next.

use vstd::prelude::*;
use crate::config::GOL_MEMORY_SIZE;
use crate::rules::{count_live_neighbors, is_generation, next_cell, next_generation};

verus! {

/// Why a cell could not be read or written.
#[derive(Clone, Copy, Debug, PartialEq, Eq, Structural)]
pub enum GridError {
    /// The index is not below the number of cells.
    IndexOutOfBounds,
}

/// The cells of one generation: `GOL_MEMORY_SIZE` states, each `0` (dead) or
/// `1` (alive). The cell in row `r` and column `c` has index
/// `r * GOL_COLS + c`.
#[derive(Debug)]
pub struct Grid {
    cells: [i32; GOL_MEMORY_SIZE],
}

impl View for Grid {
    type V = Seq<i32>;

    closed spec fn view(&self) -> Seq<i32> {
        self.cells@
    }
}

impl Clone for Grid {
    fn clone(&self) -> (copy: Grid)
        ensures
            copy@ == self@,
    {
        proof {
            use_type_invariant(self);
        }
        Grid { cells: self.cells }
    }
}

impl Grid {
    #[verifier::type_invariant]
    spec fn binary(&self) -> bool {
        forall|i: int| 0 <= i < GOL_MEMORY_SIZE ==> self.cells@[i] == 0 || self.cells@[i] == 1
    }

    /// A grid with every cell dead.
    pub fn new() -> (grid: Grid)
        ensures
            grid@ == Seq::new(GOL_MEMORY_SIZE as nat, |i: int| 0i32),
    {
        let grid = Grid { cells: [0; GOL_MEMORY_SIZE] };
        assert(grid@ =~= Seq::new(GOL_MEMORY_SIZE as nat, |i: int| 0i32));
        grid
    }

    /// Number of cells.
    pub fn len(&self) -> (n: usize)
        ensures
            n == GOL_MEMORY_SIZE,
            n == self@.len(),
            is_generation(self@),
    {
        proof {
            use_type_invariant(self);
        }
        GOL_MEMORY_SIZE
    }

    /// State of the cell at `index`.
    pub fn get(&self, index: usize) -> (state: Result<i32, GridError>)
        ensures
            is_generation(self@),
            index < GOL_MEMORY_SIZE ==> state == Ok::<i32, GridError>(self@[index as int]),
            index >= GOL_MEMORY_SIZE ==> state == Err::<i32, GridError>(
                GridError::IndexOutOfBounds,
            ),
    {
        proof {
            use_type_invariant(self);
        }
        if index < GOL_MEMORY_SIZE {
            Ok(self.cells[index])
        } else {
            Err(GridError::IndexOutOfBounds)
        }
    }

    /// Writes `state` to the cell at `index`; an index that is out of range
    /// leaves the grid as it was.
    pub fn set(&mut self, index: usize, state: i32) -> (done: Result<(), GridError>)
        requires
            state == 0 || state == 1,
        ensures
            index < GOL_MEMORY_SIZE ==> done == Ok::<(), GridError>(()) && final(self)@ == old(
                self,
            )@.update(index as int, state),
            index >= GOL_MEMORY_SIZE ==> done == Err::<(), GridError>(GridError::IndexOutOfBounds)
                && final(self)@ == old(self)@,
    {
        proof {
            use_type_invariant(&*self);
        }
        if index < GOL_MEMORY_SIZE {
            self.cells[index] = state;
            Ok(())
        } else {
            Err(GridError::IndexOutOfBounds)
        }
    }

    /// Replaces the grid by its next generation. Every cell is decided from
    /// a copy of the grid taken before the first write.
    pub fn animate(&mut self)
        ensures
            final(self)@ == next_generation(old(self)@),
    {
        proof {
            use_type_invariant(&*self);
        }
        let copy_of_cells: [i32; GOL_MEMORY_SIZE] = self.cells;
        let mut i: usize = 1;
        while i < GOL_MEMORY_SIZE
            invariant
                1 <= i <= GOL_MEMORY_SIZE,
                copy_of_cells@ == old(self)@,
                self.cells@[0] == copy_of_cells@[0],
                forall|j: int|
                    0 <= j < GOL_MEMORY_SIZE ==> self.cells@[j] == 0 || self.cells@[j] == 1,
                forall|j: int|
                    1 <= j < i ==> self.cells@[j] == next_generation(copy_of_cells@)[j],
            decreases GOL_MEMORY_SIZE - i,
        {
            let n: i32 = count_live_neighbors(&copy_of_cells, i);
            self.cells[i] = next_cell(copy_of_cells[i], n);
            i += 1;
        }
        assert(self@ =~= next_generation(old(self)@));
    }
}

/// Stepping is deterministic: two grids that hold the same cells hold the
/// same cells after each of them has taken a step.
pub proof fn lemma_animate_is_deterministic(
    one: Grid,
    other: Grid,
    one_after: Grid,
    other_after: Grid,
)
    requires
        one@ == other@,
        one_after@ == next_generation(one@),
        other_after@ == next_generation(other@),
    ensures
        one_after@ == other_after@,
{
}

} // verus!
