//! Core of a grid-based snake game: the simulation state machine (snake
//! body, direction buffering, food placement, scoring, pause and game-over
//! transitions), the food-placement routine, the arena-size presets, and the
//! per-frame intent handling that drives the simulation.
//!
//! Terminal rendering and raw keyboard capture are external collaborators;
//! they live outside this library and talk to it through plain values.

pub mod config;
pub mod food;
pub mod game;
pub mod geometry;
pub mod intent;

pub use geometry::Direction;
pub use geometry::Point;
