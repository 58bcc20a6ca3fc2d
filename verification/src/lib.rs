//! A one-dimensional binary cellular-automaton engine.
//!
//! A row of two-state cells ([`cell::Cell`]) is advanced step by step: for
//! every position the engine gathers the states of the two immediate
//! neighbours under a boundary policy ([`boundary::BoundaryPolicy`], with
//! dead padding as the canonical policy), feeds them together with the
//! current cell to a transition rule ([`rule::Rule`]), and collects the
//! results into the next generation ([`generation::Generation`]). The
//! [`automaton::Automaton`] composes one generation with one rule and
//! exposes `evolve` (one synchronous step) and `render` (a read-only
//! projection of the row as one glyph per cell).
//!
//! Cells, rules, boundary policies and generation storage are decoupled
//! abstractions, so any rule ([`rule90::Rule90`], [`rule30::Rule30`] or a
//! user's own) can drive any cell representation and any storage through
//! the one evolution algorithm.

pub mod automaton;
pub mod boundary;
pub mod cell;
pub mod generation;
pub mod random_init;
pub mod render;
pub mod rule;
pub mod rule30;
pub mod rule90;
pub mod vector_generation;
