//! A game of snake on a grid whose edges are joined.
//!
//! The snake moves one cell per tick, turns on `w`, `a`, `s` and `d`, grows
//! by one cell for each point that it collects, and dies when its head runs
//! into its body. [`Simulation`] plays the ticks; [`GameState`] is what a
//! renderer is shown after each of them.
//!
//! Every type has a mathematical value, its view, and every function says in
//! its contract what it does to that value. The rules of the game are the
//! spec functions on the views, and the laws that hold of them are proved
//! beside them.

pub mod coordinate;
pub mod grid;
pub mod player;
pub mod rng;
pub mod simulation;
pub mod state;

pub use crate::coordinate::Coordinate;
pub use crate::grid::GameGrid;
pub use crate::player::Player;
pub use crate::simulation::Simulation;
pub use crate::state::GameState;
