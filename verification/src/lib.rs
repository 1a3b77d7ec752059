//! A one-dimensional two-state cellular automaton computed by a sweeping
//! three-cell "scanner" cursor over a fixed boolean grid, with a
//! playing/paused state machine and helpers for rendering its contents.

pub mod sim;
pub mod render;
