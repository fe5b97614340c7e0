//! Conway's Game of Life: a verified simulation core.
//!
//! The crate keeps the authoritative cell state in an in-memory [`grid::Grid`],
//! computes generations with the standard Life rule ([`life`]), and decides
//! frame pacing, speed changes and shutdown in [`control`]. A thin terminal
//! front end owns the screen and the clock and calls into these modules.

pub mod control;
pub mod grid;
pub mod life;
pub mod seed;
