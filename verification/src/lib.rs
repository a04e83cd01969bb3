//! Simulation core of a grid-based snake game: a fixed-tick movement and
//! growth engine that owns the snake's body, direction buffering, food
//! placement, growth scheduling, and collision detection.
//!
//! One logical update runs per rendering frame, in a fixed stage order:
//! the intent resolver ([`intent`]), the tick clock ([`clock`]), the motion
//! and growth engine ([`engine`]), and the world state manager ([`game`]),
//! which also owns the Begin/Playing state machine. The render boundary
//! ([`render`]) exposes the occupied cells per frame; the embedding shell
//! does the drawing, key reading and sound playing.

pub mod clock;
pub mod engine;
pub mod field;
pub mod game;
pub mod intent;
pub mod pos;
pub mod render;
pub mod rng;
pub mod window;
