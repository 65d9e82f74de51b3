//! Card-deck builder core: turns named deck records into ordered,
//! replicated front/back card faces with a fully specified draw recipe.
//!
//! Geometry and layout are expressed in integer per-mille units of the
//! face width and height, so every coordinate the library emits is exact;
//! scaling to concrete pixel sizes is left to the rendering shell.

pub mod deck;
pub mod geometry;
pub mod loader;
pub mod model;
pub mod order;
