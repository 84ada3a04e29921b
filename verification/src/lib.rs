//! Orientation core for a sky-sphere visualization: converts catalog
//! equatorial coordinates and civil time into horizon coordinates and
//! per-frame scene transforms, and resolves star-picking gestures.
//!
//! All angles are carried as fixed-point integers: microdegrees for
//! angular values, a 10^9 scale for unit-interval values (sines and
//! cosines), and a 10^6 scale for world-space coordinates.

pub mod camera;
pub mod config;
pub mod geometry;
pub mod horizon;
pub mod numeric;
pub mod orient;
pub mod pick;
pub mod sidereal;
pub mod trig;
pub mod view;

use vstd::prelude::*;

verus! {

} // verus!
