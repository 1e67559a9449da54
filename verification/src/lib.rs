//! Core simulation logic of a 2D lunar-lander arcade game.
//!
//! All quantities are held in fixed-point integers: positions and
//! velocities in thousandths of a world unit ("milli-units"), angles in
//! thousandths of a radian ("milli-radians"), thrust as a level in
//! `[0, 1000]` standing for `[0.0, 1.0]`, and fuel in milli-units with a
//! full tank of `100_000` (100 units). One tick advances the world by a
//! fixed time step of 1/60 s.

pub mod fxp;
pub mod game;
pub mod lander;
pub mod particles;
pub mod rng;
pub mod terrain;
