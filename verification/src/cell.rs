//! Binary cell state and conversion between cell representations.

use vstd::prelude::*;

use crate::render::Render;

verus! {

/// The two states a cell can be in.
enum CellState {
    Alive,
    Dead,
}

impl Render for CellState {
    closed spec fn spec_render(&self) -> Seq<char> {
        if self is Alive {
            seq!['\u{25cf}']
        } else {
            seq![' ']
        }
    }

    fn render(&self) -> (r: String) {
        let r = match self {
            CellState::Alive => String::from_str("\u{25cf}"),
            CellState::Dead => String::from_str(" "),
        };
        proof {
            reveal_strlit("\u{25cf}");
            reveal_strlit(" ");
            assert("\u{25cf}"@ =~= seq!['\u{25cf}']);
            assert(" "@ =~= seq![' ']);
        }
        r
    }
}

/// A cell: a value with exactly two states, alive or dead.
///
/// The canonical representation of the state is the boolean `is_alive`;
/// `spec_is_alive` is its abstract counterpart, which every contract of the
/// engine is phrased over. Cells are immutable: evolution builds new cells
/// with `alive`/`dead`, it never changes one in place.
pub trait Cell: Sized {
    /// Abstract state of this cell: `true` iff it is alive.
    spec fn spec_is_alive(&self) -> bool;

    /// Constructs a cell in the alive state.
    fn alive() -> (c: Self)
        ensures
            c.spec_is_alive(),
    ;

    /// Constructs a cell in the dead state.
    fn dead() -> (c: Self)
        ensures
            !c.spec_is_alive(),
    ;

    /// Queries the state; total and side-effect-free.
    fn is_alive(&self) -> (b: bool)
        ensures
            b == self.spec_is_alive(),
    ;
}

/// Maps a cell into another cell representation through the canonical
/// boolean: every boolean has a defined image cell, so this cannot fail.
///
/// (A method on [`Cell`] bounded by [`FromCell`] would close a cycle between
/// the two trait declarations, which the verifier rejects; hence a free
/// function.)
pub fn convert<T: Cell, B: FromCell>(cell: &T) -> (r: B)
    ensures
        r.spec_is_alive() == cell.spec_is_alive(),
{
    B::from_cell(cell)
}

/// The aliveness of each cell of `cells`, in order: the abstract row that a
/// sequence of cells stands for.
pub open spec fn row_of<C: Cell>(cells: Seq<C>) -> Seq<bool> {
    Seq::new(cells.len(), |i: int| cells[i].spec_is_alive())
}

/// Cell representations that can be built from any other cell.
pub trait FromCell: Cell {
    /// Builds a cell of this representation in the same state as `cell`.
    fn from_cell<T: Cell>(cell: &T) -> (r: Self)
        ensures
            r.spec_is_alive() == cell.spec_is_alive(),
    ;
}

/// The plain cell representation: a wrapped two-state value.
pub struct BasicCell {
    state: CellState,
}

impl FromCell for BasicCell {
    fn from_cell<T: Cell>(cell: &T) -> (r: Self) {
        match cell.is_alive() {
            true => Self::alive(),
            false => Self::dead(),
        }
    }
}

impl Cell for BasicCell {
    closed spec fn spec_is_alive(&self) -> bool {
        self.state is Alive
    }

    fn dead() -> (c: BasicCell) {
        BasicCell { state: CellState::Dead }
    }

    fn alive() -> (c: BasicCell) {
        BasicCell { state: CellState::Alive }
    }

    fn is_alive(&self) -> (b: bool) {
        match self.state {
            CellState::Alive => true,
            CellState::Dead => false,
        }
    }
}

impl Render for BasicCell {
    /// A `BasicCell` renders to exactly one glyph: a filled circle when
    /// alive, a blank when dead.
    open spec fn spec_render(&self) -> Seq<char> {
        if self.spec_is_alive() {
            seq!['\u{25cf}']
        } else {
            seq![' ']
        }
    }

    fn render(&self) -> (r: String) {
        self.state.render()
    }
}

/// A `BasicCell` always renders to exactly one glyph, whichever state it
/// is in.
pub proof fn lemma_basic_cell_one_glyph(cell: &BasicCell)
    ensures
        cell.spec_render().len() == 1,
{
}

} // verus!
