//! Rule 30 of the elementary cellular automata.

use vstd::prelude::*;

use crate::cell::Cell;
use crate::rule::Rule;

verus! {

/// Rule 30: the next state is the left neighbour xor-ed with the or of the
/// current cell and the right neighbour. Unlike Rule 90 it depends on the
/// current cell's own state as well as on both neighbours.
pub open spec fn rule30_next(neighbor_data: (bool, bool), cell_alive: bool) -> bool {
    neighbor_data.0 != (cell_alive || neighbor_data.1)
}

/// The Rule 30 transition rule, a zero-data marker type.
pub struct Rule30;

impl<C: Cell> Rule<(bool, bool), C> for Rule30 {
    open spec fn spec_evaluate(&self, neighbor_data: (bool, bool), cell_alive: bool) -> bool {
        rule30_next(neighbor_data, cell_alive)
    }

    fn evaluate(&self, neighbors: &(bool, bool), cell: &C) -> (r: C) {
        match (*neighbors, cell.is_alive()) {
            ((false, false), false) => C::dead(),
            ((false, true), false) => C::alive(),
            ((true, false), false) => C::alive(),
            ((true, true), false) => C::dead(),
            ((false, false), true) => C::alive(),
            ((false, true), true) => C::alive(),
            ((true, false), true) => C::dead(),
            ((true, true), true) => C::dead(),
        }
    }
}

/// The Rule 30 truth table, case by case, with the neighbour pair written
/// as (left, right) and the current cell's state beside it.
pub proof fn lemma_rule30_truth_table()
    ensures
        rule30_next((false, false), false) == false,
        rule30_next((false, true), false) == true,
        rule30_next((true, false), false) == true,
        rule30_next((true, true), false) == false,
        rule30_next((false, false), true) == true,
        rule30_next((false, true), true) == true,
        rule30_next((true, false), true) == false,
        rule30_next((true, true), true) == false,
{
}

} // verus!
