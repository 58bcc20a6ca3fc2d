//! Random initialisation of a generation.

use vstd::prelude::*;

use crate::cell::Cell;
use crate::generation::Generation;
use crate::render::Render;

verus! {

/// Generations that can be filled from the random source.
pub trait RandomInit<C>: Generation<C> where C: Cell + Render {
    /// Constructs a generation of exactly `width` cells, each independently
    /// alive or dead as the external random source decides. Nothing is
    /// promised of the pattern itself, only of its length.
    fn randomized(width: usize) -> (g: Self)
        ensures
            g.row().len() == width,
    ;
}

} // verus!
