//! A grid-based snake simulation core.
//!
//! The library models the authoritative game state of a snake moving on a
//! walled grid arena: segment positions, heading updates guarded against
//! direct reversal, simultaneous body shifts each tick, wall and
//! self-collision detection, food consumption and growth, and the reset that
//! follows a game over. A host drives it through discrete tick calls and
//! reads back a snapshot of occupied cells; all rendering, input polling and
//! scheduling stay outside.

pub mod game;
pub mod grid;
pub mod laws;
pub mod render;
mod rng;
pub mod snake;
