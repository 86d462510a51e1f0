//! A cellular automaton on a torus, with afterglow.
//!
//! A grid of cells lives generation by generation: a cell stays or comes
//! alive by the number of its living neighbours, counted across the joined
//! edges of the grid, and a cell that is dead fades a little with each
//! generation. The grid is drawn in shades of grey, one pixel for each cell.
//!
//! - [`cell`] and [`grid`] hold the data: a cell, a grid, and how positions
//!   wrap around.
//! - [`fraction`] holds the exact fractions that the decay and the starting
//!   density are given as.
//! - [`seeding`] fills a fresh grid at random.
//! - [`transition`] computes the generation that follows a grid.
//! - [`render`] draws a grid into a frame of pixels.
//! - [`simulation`] keeps a grid, its rules and its count of generations
//!   together, and [`report`] words what a tick found.
//! - [`control`] decides when the loop that drives a simulation ends.

pub mod cell;
pub mod control;
pub mod fraction;
pub mod grid;
pub mod render;
pub mod report;
pub mod seeding;
pub mod simulation;
pub mod transition;

pub use crate::cell::{Cell, FULL_BRIGHTNESS};
pub use crate::control::{advance, decide, Decision, Poll, Size, Turn};
pub use crate::fraction::Fraction;
pub use crate::grid::Grid;
pub use crate::render::{render, FrameSizeMismatch};
pub use crate::report::stability_message;
pub use crate::seeding::{seed, seed_from_draws};
pub use crate::simulation::{tick, Config, Simulation, TickReport};
pub use crate::transition::{calculate_state, step_cell, Rules};
