//! A generation stored as a vector of cells.

use vstd::prelude::*;

use crate::boundary::BoundaryPolicy;
use crate::boundary::DeadPadding;
use crate::cell::BasicCell;
use crate::cell::Cell;
use crate::cell::lemma_basic_cell_one_glyph;
use crate::cell::row_of;
use crate::generation::Generation;
use crate::random_init::RandomInit;
use crate::render::Render;
use crate::render::concat_renders;
use crate::render::lemma_concat_renders_len;
use crate::render::lemma_concat_renders_push;

verus! {

/// The vector-backed generation: an ordered row of cells, owned
/// exclusively and replaced wholesale on each evolution step.
pub struct VectorGeneration<C: Cell> {
    cells: Vec<C>,
}

/// Draws one boolean from the process-wide random source.
///
/// Relies on `rand::random::<bool>`: one independent draw from the
/// thread-local generator, `true` or `false` with probability one half
/// each. Nothing can be promised of the outcome, so nothing is.
#[verifier::external_body]
fn random_bool() -> bool {
    rand::random::<bool>()
}

impl<C: Cell + Render> VectorGeneration<C> {
    /// Constructs a generation of `width` cells, all dead.
    pub fn new(width: usize) -> (g: Self)
        ensures
            g.row().len() == width,
            forall|i: int| 0 <= i < width ==> !(#[trigger] g.row()[i]),
    {
        let mut cells: Vec<C> = Vec::new();
        let mut i: usize = 0;
        while i < width
            invariant
                i <= width,
                cells@.len() == i,
                forall|j: int| 0 <= j < i ==> !(#[trigger] cells@[j]).spec_is_alive(),
            decreases width - i,
        {
            cells.push(C::dead());
            i = i + 1;
        }
        VectorGeneration { cells }
    }

    /// The neighbour data of every position under the boundary policy `P`,
    /// index-aligned with the cells. `Generation::neighbors` plugs in the
    /// canonical [`DeadPadding`] policy; the clamped alternative can be
    /// exercised through this method instead.
    pub fn neighbors_with<P: BoundaryPolicy>(&self) -> (r: Vec<(bool, bool)>)
        ensures
            r@.len() == self.row().len(),
            forall|i: int|
                0 <= i < r@.len() ==> r@[i] == P::spec_neighbor_data(self.row(), i),
    {
        let width = self.cells.len();
        let mut result: Vec<(bool, bool)> = Vec::new();
        let mut i: usize = 0;
        while i < width
            invariant
                i <= width,
                width == self.cells@.len(),
                result@.len() == i,
                forall|j: int|
                    0 <= j < i ==> result@[j] == P::spec_neighbor_data(
                        row_of(self.cells@),
                        j,
                    ),
            decreases width - i,
        {
            result.push(P::neighbor_data(&self.cells, i));
            i = i + 1;
        }
        result
    }
}

impl<C: Cell + Render> RandomInit<C> for VectorGeneration<C> {
    fn randomized(width: usize) -> (g: Self) {
        let mut cells: Vec<C> = Vec::new();
        let mut i: usize = 0;
        while i < width
            invariant
                i <= width,
                cells@.len() == i,
            decreases width - i,
        {
            let cell = if random_bool() {
                C::dead()
            } else {
                C::alive()
            };
            cells.push(cell);
            i = i + 1;
        }
        VectorGeneration { cells }
    }
}

impl<C: Cell + Render> Render for VectorGeneration<C> {
    /// A generation renders to its cells' glyphs, concatenated in position
    /// order.
    closed spec fn spec_render(&self) -> Seq<char> {
        concat_renders(self.cells@)
    }

    fn render(&self) -> (r: String) {
        let width = self.cells.len();
        let mut s = String::from_str("");
        let mut i: usize = 0;
        proof {
            reveal_strlit("");
            assert(""@ =~= Seq::<char>::empty());
            assert(self.cells@.take(0) =~= Seq::<C>::empty());
        }
        while i < width
            invariant
                i <= width,
                width == self.cells@.len(),
                s@ == concat_renders(self.cells@.take(i as int)),
            decreases width - i,
        {
            let glyphs = self.cells[i].render();
            proof {
                lemma_concat_renders_push(self.cells@.take(i as int), self.cells@[i as int]);
                assert(self.cells@.take(i as int + 1) =~= self.cells@.take(i as int).push(
                    self.cells@[i as int],
                ));
            }
            s.append(glyphs.as_str());
            i = i + 1;
        }
        proof {
            assert(self.cells@.take(width as int) =~= self.cells@);
        }
        s
    }
}

impl<C: Cell + Render> Generation<C> for VectorGeneration<C> {
    closed spec fn row(&self) -> Seq<bool> {
        row_of(self.cells@)
    }

    fn cells(&self) -> (r: &Vec<C>) {
        &self.cells
    }

    fn neighbors(&self) -> (r: Vec<(bool, bool)>) {
        self.neighbors_with::<DeadPadding>()
    }

    fn from_cells(cells: Vec<C>) -> (g: Self) {
        VectorGeneration { cells }
    }
}

/// A width-zero generation renders to the empty glyph sequence.
pub proof fn lemma_render_width_zero<C: Cell + Render>(g: &VectorGeneration<C>)
    requires
        g.row().len() == 0,
    ensures
        g.spec_render() == Seq::<char>::empty(),
{
    assert(g.cells@.len() == 0);
    assert(g.spec_render() =~= Seq::<char>::empty());
}

/// A generation of basic cells renders to exactly one glyph per cell: the
/// rendering is as long as the row.
pub proof fn lemma_render_len_basic(g: &VectorGeneration<BasicCell>)
    ensures
        g.spec_render().len() == g.row().len(),
{
    assert forall|i: int|
        0 <= i < g.cells@.len() implies (#[trigger] g.cells@[i].spec_render().len()) == 1 by {
        lemma_basic_cell_one_glyph(&g.cells@[i]);
    }
    lemma_concat_renders_len(g.cells@);
}

/// A generation of basic cells renders to exactly the row's glyphs: the
/// filled circle where a cell is alive, the blank where it is dead, in
/// position order.
pub proof fn lemma_render_glyphs_basic(g: &VectorGeneration<BasicCell>)
    ensures
        g.spec_render() == Seq::new(
            g.row().len(),
            |i: int| if g.row()[i] { '\u{25cf}' } else { ' ' },
        ),
{
    lemma_concat_renders_glyphs(g.cells@);
    assert(g.spec_render() =~= Seq::new(
        g.row().len(),
        |i: int| if g.row()[i] { '\u{25cf}' } else { ' ' },
    ));
}

proof fn lemma_concat_renders_glyphs(cells: Seq<BasicCell>)
    ensures
        concat_renders(cells).len() == cells.len(),
        forall|i: int|
            0 <= i < cells.len() ==> (#[trigger] concat_renders(cells)[i]) == (
            if cells[i].spec_is_alive() {
                '\u{25cf}'
            } else {
                ' '
            }),
    decreases cells.len(),
{
    if cells.len() > 0 {
        lemma_concat_renders_glyphs(cells.drop_last());
        lemma_basic_cell_one_glyph(&cells.last());
        assert forall|i: int|
            0 <= i < cells.len() implies (#[trigger] concat_renders(cells)[i]) == (
        if cells[i].spec_is_alive() {
            '\u{25cf}'
        } else {
            ' '
        }) by {
            if i < cells.len() - 1 {
                assert(cells.drop_last()[i] == cells[i]);
                assert(concat_renders(cells)[i] == concat_renders(cells.drop_last())[i]);
            } else {
                assert(concat_renders(cells)[i] == cells.last().spec_render()[0]);
            }
        }
    }
}

} // verus!
