//! Core of an interactive cellular-automaton sandbox: a bounded grid of
//! binary cells evolving under Conway's Life rule, together with the pure
//! decision logic (pause state, simulation speed levels, held input actions,
//! and pointer-paint deduplication) that drives it.

pub mod game_state;
pub mod grid;
pub mod input;
pub mod paint;
pub mod positions;
pub mod speed;
