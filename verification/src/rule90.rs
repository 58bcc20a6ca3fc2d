//! Rule 90 of the elementary cellular automata.

use vstd::prelude::*;

use crate::cell::Cell;
use crate::rule::Rule;

verus! {

/// Rule 90: the next state is the exclusive-or of the two neighbours. The
/// current cell's own state plays no part in the outcome.
pub open spec fn rule90_next(neighbor_data: (bool, bool), cell_alive: bool) -> bool {
    neighbor_data.0 != neighbor_data.1
}

/// The Rule 90 transition rule, a zero-data marker type.
pub struct Rule90;

impl<C: Cell> Rule<(bool, bool), C> for Rule90 {
    open spec fn spec_evaluate(&self, neighbor_data: (bool, bool), cell_alive: bool) -> bool {
        rule90_next(neighbor_data, cell_alive)
    }

    fn evaluate(&self, neighbors: &(bool, bool), cell: &C) -> (r: C) {
        match (*neighbors, cell.is_alive()) {
            ((false, false), true) => C::dead(),
            ((false, false), false) => C::dead(),
            ((true, false), true) => C::alive(),
            ((true, true), true) => C::dead(),
            ((false, true), false) => C::alive(),
            ((false, true), true) => C::alive(),
            ((true, true), false) => C::dead(),
            ((true, false), false) => C::alive(),
        }
    }
}

/// The Rule 90 truth table: dead when the neighbours agree, alive when they
/// differ, whatever the current cell's state.
pub proof fn lemma_rule90_truth_table(neighbor_data: (bool, bool), cell_alive: bool)
    ensures
        rule90_next((false, false), cell_alive) == false,
        rule90_next((true, false), cell_alive) == true,
        rule90_next((false, true), cell_alive) == true,
        rule90_next((true, true), cell_alive) == false,
        rule90_next(neighbor_data, cell_alive) == rule90_next(neighbor_data, !cell_alive),
{
}

} // verus!
