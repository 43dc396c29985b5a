//! Simulation engine of a maze-chase game: a player eats its way through a
//! walled grid while four adversaries alternate between patrolling and
//! pursuit.
//!
//! The engine is tick driven and free of I/O. Every executable function
//! carries a contract, and every contract is proved.

pub mod board;
pub mod bonus;
pub mod dice;
pub mod event;
pub mod game;
pub mod geometry;
pub mod ghost;
pub mod laws;
pub mod maze;
pub mod model;
pub mod period;
pub mod player;
pub mod pursuit;
pub mod screen;
pub mod soundness;
pub mod square;
