//! Row packing for user interfaces on an integer grid.
//!
//! Bounds, item widths and gaps are given in `i32` grid units. Every
//! coordinate the engine derives from them is an `i128`, which is wide
//! enough that no sequence of placements can overflow it. The one result
//! that halves a length, the centre, is counted in half units, so that
//! every result is exact.

pub mod config;
pub mod geometry;
pub mod layout;
pub mod model;

pub use geometry::{Box2D, HalfUnits, Rect};
