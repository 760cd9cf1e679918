//! Layout, paint order and mode logic of a triangular-lattice terrain generator.
//!
//! Tile positions are computed exactly, in lattice units, and the order in which
//! tiles must be drawn so that neighbours overlap correctly is derived from the
//! grid's shape alone. Heights and world-space scaling are left to the caller.
pub mod grid;
pub mod lattice;
pub mod mode;
pub mod paint;
