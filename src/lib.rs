//! Session lifecycle of a small 2D game: a phase state machine that waits for
//! the sprite assets, then spawns a player body and a follower body into a
//! component store, with a collision-layer scheme deciding which bodies meet.
//!
//! Lengths, scales and damping coefficients are fixed-point integers counted
//! in thousandths (`1000` stands for `1.0`).

pub mod layers;
pub mod factory;
pub mod world;
pub mod assets;
pub mod spawner;
pub mod session;
