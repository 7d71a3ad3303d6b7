//! The per-tick systems: paddle input and physics-to-transform
//! synchronization.

pub mod paddle;
pub mod physics;
