//! A 3-by-3 grid of screen tiles with pointer hit-testing.
//!
//! The library holds the pure core of an interactive tile grid: mapping the
//! pointer between window coordinates and the tiles' world coordinates,
//! deciding which tile the pointer is over, generating the fixed grid layout,
//! and choosing each tile's visual colour for the current frame. The host
//! engine (window, rendering, input delivery) lives outside the library and
//! calls into it with plain values once per frame.

pub mod frame;
pub mod geometry;
pub mod grid;
pub mod tiles;
