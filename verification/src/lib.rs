//! Motion core of a top-down chase: steering of the chasers, velocity
//! capping, an explicit Euler integrator and the player's input mapping,
//! all in saturating fixed-point arithmetic.

pub mod angle;
pub mod capper;
pub mod fixed;
pub mod input;
pub mod integrator;
pub mod steering;
pub mod vec2;
pub mod world;
