//! A procedurally generated 2D tile world: deterministic noise-driven
//! terrain generation over a fixed-size grid, a queryable passability map,
//! and discrete grid-aligned movement of a single controlled entity.

use vstd::prelude::*;

pub mod movement;
pub mod noise_field;
pub mod tiles;
pub mod worldgen;

verus! {

/// Side length of the generated grid, in cells.
pub const GRID_SIZE: i32 = 64;

} // verus!
