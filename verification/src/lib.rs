//! Air-infiltration physics for a building-energy simulation.
//!
//! The crate computes, once per simulation step, the air infiltration rate
//! (volumetric flow and ambient temperature) of every space of a building,
//! using one of five interchangeable semi-empirical models.  All physical
//! quantities are carried as fixed-point numbers: an `i64` counts millionths
//! of the quantity's unit (degrees Celsius, metres per second, cubic metres
//! per second, square centimetres).

pub mod data;
pub mod eplus;
pub mod fixed;
pub mod model;
pub mod resolvers;
pub mod state;

pub use fixed::{FIXED_ABS_MAX, SCALE};
