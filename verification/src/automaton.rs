//! The automaton: one generation composed with one transition rule.

use core::marker::PhantomData;

use vstd::prelude::*;

use crate::boundary::dead_padded_neighbors;
use crate::cell::Cell;
use crate::cell::row_of;
use crate::generation::Generation;
use crate::render::Render;
use crate::rule::Rule;

verus! {

/// The row that one synchronous evolution step under `rule` derives from
/// `row`: at every position the rule is applied to the dead-padded
/// neighbour data and the current state, every position reading only the
/// row being replaced, never a partially updated result.
pub open spec fn next_row<C: Cell, R: Rule<(bool, bool), C>>(rule: R, row: Seq<bool>) -> Seq<
    bool,
> {
    Seq::new(row.len(), |i: int| rule.spec_evaluate(dead_padded_neighbors(row, i), row[i]))
}

/// One evolution step preserves the row length: a rule application is one
/// neighbour-data/cell pair in, one cell out, at the same position.
pub proof fn lemma_next_row_len<C: Cell, R: Rule<(bool, bool), C>>(rule: R, row: Seq<bool>)
    ensures
        next_row(rule, row).len() == row.len(),
{
}

/// Evolving a width-zero row yields a width-zero row, whatever the rule.
pub proof fn lemma_next_row_width_zero<C: Cell, R: Rule<(bool, bool), C>>(rule: R, row: Seq<bool>)
    requires
        row.len() == 0,
    ensures
        next_row(rule, row) == Seq::<bool>::empty(),
{
    assert(next_row(rule, row) =~= Seq::<bool>::empty());
}

/// An automaton: exactly one generation (the current state) and one rule
/// (the fixed policy). It is mutated only by `evolve`, which replaces the
/// generation wholesale; `render` is a read-only projection.
pub struct Automaton<C, R, G> where C: Cell, R: Rule<(bool, bool), C>, G: Generation<C> {
    generation: G,
    rule: R,
    phantom: PhantomData<C>,
}

impl<C, R, G> Automaton<C, R, G> where C: Cell, R: Rule<(bool, bool), C>, G: Generation<C> {
    /// The rule this automaton runs.
    pub closed spec fn spec_rule(&self) -> R {
        self.rule
    }

    /// The current generation.
    pub closed spec fn spec_generation(&self) -> G {
        self.generation
    }

    /// The abstract row of the current generation.
    pub closed spec fn row(&self) -> Seq<bool> {
        self.generation.row()
    }

    /// Constructs an automaton with a fixed rule and a starting generation.
    pub fn new(rule: R, generation: G) -> (a: Self)
        ensures
            a.spec_rule() == rule,
            a.spec_generation() == generation,
            a.row() == generation.row(),
    {
        Automaton { generation: generation, rule: rule, phantom: PhantomData }
    }

    /// Advances the state by exactly one generation, in place: the old row
    /// is read in full, the rule is applied at every position, and the
    /// collected results replace the old generation. The row length is
    /// preserved and the rule stays the same.
    pub fn evolve(&mut self)
        ensures
            final(self).row() == next_row(old(self).spec_rule(), old(self).row()),
            final(self).row().len() == old(self).row().len(),
            final(self).spec_rule() == old(self).spec_rule(),
    {
        proof {
            lemma_next_row_len(self.spec_rule(), self.row());
        }
        self.generation = self.update();
    }

    /// Computes the next generation from the current one: neighbour data
    /// and cells are zipped position by position through the rule, and the
    /// results are collected into a fresh generation.
    fn update(&self) -> (g: G)
        ensures
            g.row() == next_row(self.spec_rule(), self.row()),
    {
        let neighbor_data = self.generation.neighbors();
        let cells = self.generation.cells();
        let width = cells.len();
        let mut next: Vec<C> = Vec::new();
        let mut i: usize = 0;
        while i < width
            invariant
                i <= width,
                width == cells@.len(),
                row_of(cells@) == self.row(),
                neighbor_data@.len() == self.row().len(),
                forall|k: int|
                    0 <= k < neighbor_data@.len() ==> neighbor_data@[k] == dead_padded_neighbors(
                        self.row(),
                        k,
                    ),
                next@.len() == i,
                forall|k: int|
                    0 <= k < i ==> (#[trigger] next@[k]).spec_is_alive()
                        == self.spec_rule().spec_evaluate(
                        dead_padded_neighbors(self.row(), k),
                        self.row()[k],
                    ),
            decreases width - i,
        {
            next.push(self.rule.evaluate(&neighbor_data[i], &cells[i]));
            i = i + 1;
        }
        let g = G::from_cells(next);
        proof {
            assert(g.row() =~= next_row(self.spec_rule(), self.row()));
        }
        g
    }
}

impl<C, R, G> Render for Automaton<C, R, G> where
    C: Cell,
    R: Rule<(bool, bool), C>,
    G: Generation<C>,
 {
    /// An automaton renders as its current generation does.
    closed spec fn spec_render(&self) -> Seq<char> {
        self.generation.spec_render()
    }

    fn render(&self) -> (r: String) {
        self.generation.render()
    }
}

/// An automaton draws exactly what its current generation draws.
pub proof fn lemma_automaton_renders_generation<C, R, G>(a: &Automaton<C, R, G>) where
    C: Cell,
    R: Rule<(bool, bool), C>,
    G: Generation<C>,

    ensures
        a.spec_render() == a.spec_generation().spec_render(),
{
}

} // verus!
