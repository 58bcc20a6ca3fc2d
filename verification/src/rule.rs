//! The transition rule abstraction.

use vstd::prelude::*;

use crate::cell::Cell;

verus! {

/// A transition rule: a pure, stateless function from neighbour data and
/// the current cell to the next cell.
///
/// `spec_evaluate` is the rule's abstract truth table over the canonical
/// boolean cell state; `evaluate` must realise exactly that table, so the
/// rule is total over its whole input domain and evaluating the same inputs
/// twice yields cells in the same state. The engine makes no assumption
/// that a rule ignores any of its inputs.
pub trait Rule<NeighborData, C: Cell> {
    /// The aliveness of the next cell as a function of the neighbour data
    /// and the current cell's aliveness.
    spec fn spec_evaluate(&self, neighbor_data: NeighborData, cell_alive: bool) -> bool;

    /// Applies the rule to one position.
    fn evaluate(&self, neighbor_data: &NeighborData, cell: &C) -> (r: C)
        ensures
            r.spec_is_alive() == self.spec_evaluate(*neighbor_data, cell.spec_is_alive()),
    ;
}

} // verus!
