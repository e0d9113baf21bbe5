//! Discrete grid coordinates. A grid position indexes the automaton grid;
//! one cell covers one world-unit square, so it is the integer part of a
//! world position. The continuous world- and screen-space coordinates, and
//! the conversions between them, live in the unverified shell around the
//! library.

use vstd::prelude::*;

verus! {

/// A discrete cell index `(x, y)`: `x` is the column, `y` the row.
#[derive(Clone, Copy, PartialEq, Eq, Structural, Hash, Debug)]
pub struct GridPosition(pub usize, pub usize);

} // verus!
