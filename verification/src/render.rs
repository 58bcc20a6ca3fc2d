//! Rendering of automaton state as text.

use vstd::prelude::*;

verus! {

/// Anything that can draw itself as a line of text.
///
/// The drawing is a pure projection of the value: `spec_render` is the
/// abstract glyph sequence, and `render` must produce exactly that sequence,
/// so rendering the same value twice yields the same string and changes
/// nothing.
pub trait Render {
    /// The glyph sequence this value renders to.
    spec fn spec_render(&self) -> Seq<char>;

    fn render(&self) -> (r: String)
        ensures
            r@ == self.spec_render(),
    ;
}

/// The glyph sequences of `items`, concatenated in order: what a row of
/// renderable values draws as.
pub open spec fn concat_renders<C: Render>(items: Seq<C>) -> Seq<char>
    decreases items.len(),
{
    if items.len() == 0 {
        Seq::empty()
    } else {
        concat_renders(items.drop_last()) + items.last().spec_render()
    }
}

/// Appending one item to a row appends its glyphs to the row's rendering.
pub proof fn lemma_concat_renders_push<C: Render>(items: Seq<C>, item: C)
    ensures
        concat_renders(items.push(item)) == concat_renders(items) + item.spec_render(),
{
    assert(items.push(item).drop_last() =~= items);
}

/// When every item of a row renders to exactly one glyph, the row renders
/// to exactly one glyph per item: the rendering is as long as the row.
pub proof fn lemma_concat_renders_len<C: Render>(items: Seq<C>)
    requires
        forall|i: int| 0 <= i < items.len() ==> (#[trigger] items[i].spec_render().len()) == 1,
    ensures
        concat_renders(items).len() == items.len(),
    decreases items.len(),
{
    if items.len() > 0 {
        lemma_concat_renders_len(items.drop_last());
        assert(items[items.len() - 1].spec_render().len() == 1);
    }
}

} // verus!
