//! Core of a minimal two-dimensional game simulation, advanced once per fixed
//! tick: a physics world of rigid bodies, a system that projects body
//! positions into renderable transforms, and a paddle-input system that moves
//! paddles vertically under arena clamping.
//!
//! Coordinates are fixed-point: `pong::UNIT` sub-units make one world unit.
//! Rendering, asset loading and input devices live outside this crate; the
//! embedding shell hands the systems plain values and reads plain values back.

pub mod physics_world;
pub mod pong;
pub mod systems;
