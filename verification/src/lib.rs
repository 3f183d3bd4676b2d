//! Core of a small real-time arcade simulation: a player-controlled ship
//! moves over a scrolling field, asteroids spawn around it with rising
//! difficulty, and the player fires time-limited projectiles.
//!
//! All quantities are fixed-point integers: lengths and speeds in
//! milli-units (one unit of the play field = 1000), angles in
//! milliradians, and times in milliseconds.  Every state transition is a
//! plain function over these values with a proved contract.

pub mod fixed;
pub mod angle;
pub mod timer;
pub mod input;
pub mod player;
pub mod camera;
pub mod rng;
pub mod laser;
pub mod asteroid;
pub mod world;
pub mod laws;
