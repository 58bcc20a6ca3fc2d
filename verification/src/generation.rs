//! The generation abstraction: one full row of cells at a point in time.

use vstd::prelude::*;

use crate::boundary::dead_padded_neighbors;
use crate::cell::Cell;
use crate::cell::row_of;
use crate::render::Render;

verus! {

/// An ordered, fixed-length row of cells, indexed `0 .. width - 1`.
///
/// `row` is the abstract state: the aliveness of each cell, in order. A
/// generation hands out its cells and, index-aligned with them, the
/// neighbour data of every position, gathered under the canonical
/// dead-padding boundary policy; and it can be rebuilt from any sequence of
/// cells, which is how evolution reconstitutes the next generation without
/// special-casing storage. A generation is replaced wholesale on each
/// evolution step, never patched in place.
pub trait Generation<C: Cell>: Render + Sized {
    /// The abstract row: the aliveness of each cell, in order.
    spec fn row(&self) -> Seq<bool>;

    /// Read-only view of the current row, index-addressable, with one cell
    /// per position.
    fn cells(&self) -> (r: &Vec<C>)
        ensures
            row_of(r@) == self.row(),
    ;

    /// The neighbour data of every position, index-aligned with `cells` and
    /// always exactly as long as the row, gathered under dead padding.
    fn neighbors(&self) -> (r: Vec<(bool, bool)>)
        ensures
            r@.len() == self.row().len(),
            forall|i: int|
                0 <= i < r@.len() ==> r@[i] == dead_padded_neighbors(self.row(), i),
    ;

    /// Rebuilds a generation from a sequence of cells.
    fn from_cells(cells: Vec<C>) -> (g: Self)
        ensures
            g.row() == row_of(cells@),
    ;
}

} // verus!
