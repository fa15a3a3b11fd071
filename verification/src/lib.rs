//! Simulation core of a fixed-field 2D arcade shooter: a player ship moves on
//! an 800x600 playfield, fires missiles upward, and must avoid descending
//! monsters while a starfield scrolls behind. Every rule of the per-tick
//! simulation loop — spawning, movement, collision resolution, lifecycle
//! culling, and the driver state machine — lives here with a verified
//! contract. Rendering and input sampling are left to the caller, which hands
//! the driver plain input flags and a millisecond clock each tick.

pub mod collide;
pub mod config;
pub mod cull;
pub mod driver;
pub mod entity;
pub mod geom;
pub mod motion;
mod rng;
pub mod spawn;
