//! A minimal turn-based 3x3 marking game: a board of optional markers,
//! strict turn alternation, and a click-to-place protocol with a
//! no-overwrite rule. Rendering and windowing live outside this crate.

pub mod board;
pub mod game;
pub mod laws;
pub mod marker;
