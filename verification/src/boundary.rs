//! Boundary policies: how neighbour data is gathered at the edges of a row.
//!
//! For position `i` in a row of length `n`, the neighbour data is the pair
//! of the left and right neighbour's aliveness. At the two edge positions
//! (`i == 0`, `i == n - 1`) a physical neighbour is absent, and a boundary
//! policy decides what stands in for it. Dead padding ([`DeadPadding`]) is
//! the canonical policy of this engine: a missing neighbour counts as dead.
//! Edge clamping ([`ClampedEdges`]) is kept as a documented alternative in
//! which a missing neighbour index is clamped to the nearest valid one, so
//! an edge cell becomes its own neighbour.

use vstd::prelude::*;

use crate::cell::Cell;
use crate::cell::row_of;

verus! {

/// Neighbour data under dead padding: a neighbour outside the row counts as
/// dead. Total over every position, including rows of width zero and one.
pub open spec fn dead_padded_neighbors(row: Seq<bool>, i: int) -> (bool, bool) {
    ((0 < i && i - 1 < row.len() && row[i - 1]), (0 <= i + 1 && i + 1 < row.len() && row[i + 1]))
}

/// Neighbour data under edge clamping: a missing neighbour index is clamped
/// to the nearest valid index, so an edge cell is its own neighbour. Total
/// over every position; on an empty row both neighbours count as dead.
pub open spec fn clamped_neighbors(row: Seq<bool>, i: int) -> (bool, bool) {
    let prior = if i > 0 { i - 1 } else { 0 };
    let posterior = if i + 1 < row.len() { i + 1 } else { row.len() - 1 };
    (
        (0 <= prior && prior < row.len() && row[prior]),
        (0 <= posterior && posterior < row.len() && row[posterior]),
    )
}

/// A boundary policy: produces the neighbour data for a position of a row,
/// handling the edge positions where a physical neighbour is absent.
pub trait BoundaryPolicy {
    /// The neighbour data this policy yields at position `i` of `row`.
    spec fn spec_neighbor_data(row: Seq<bool>, i: int) -> (bool, bool);

    /// Computes the neighbour data for position `i` of the row `cells`.
    fn neighbor_data<C: Cell>(cells: &Vec<C>, i: usize) -> (r: (bool, bool))
        requires
            i < cells@.len(),
        ensures
            r == Self::spec_neighbor_data(row_of(cells@), i as int),
    ;
}

/// The canonical boundary policy: a missing neighbour is dead.
pub struct DeadPadding;

impl BoundaryPolicy for DeadPadding {
    open spec fn spec_neighbor_data(row: Seq<bool>, i: int) -> (bool, bool) {
        dead_padded_neighbors(row, i)
    }

    fn neighbor_data<C: Cell>(cells: &Vec<C>, i: usize) -> (r: (bool, bool)) {
        let width = cells.len();
        let left: bool = if i > 0 { cells[i - 1].is_alive() } else { false };
        let right: bool = if i + 1 < width { cells[i + 1].is_alive() } else { false };
        (left, right)
    }
}

/// The alternative boundary policy: a missing neighbour index is clamped to
/// the nearest valid index, making an edge cell its own neighbour.
pub struct ClampedEdges;

impl BoundaryPolicy for ClampedEdges {
    open spec fn spec_neighbor_data(row: Seq<bool>, i: int) -> (bool, bool) {
        clamped_neighbors(row, i)
    }

    fn neighbor_data<C: Cell>(cells: &Vec<C>, i: usize) -> (r: (bool, bool)) {
        let width = cells.len();
        let prior: usize = if i > 0 { i - 1 } else { 0 };
        let posterior: usize = if i + 1 < width { i + 1 } else { width - 1 };
        (cells[prior].is_alive(), cells[posterior].is_alive())
    }
}

/// Dead padding at the edges: in a three-cell row `[a, b, c]`, position 0
/// sees `(dead, b)` and position 2 sees `(b, dead)`.
pub proof fn lemma_dead_padding_edges<C: Cell>(a: C, b: C, c: C)
    ensures
        dead_padded_neighbors(row_of(seq![a, b, c]), 0) == ((false, b.spec_is_alive())),
        dead_padded_neighbors(row_of(seq![a, b, c]), 2) == ((b.spec_is_alive(), false)),
{
}

} // verus!
