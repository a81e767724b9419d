//! Motion-governance core of a mobile robot.
//!
//! Scalars are fixed-point integers: distances in millimetres, velocities in
//! millimetres per second, times in milliseconds, and normalised quantities
//! (energy level, risk, confidence, margins) in thousandths.
pub mod fixed;
pub mod history;
pub mod governor;
pub mod safety;
pub mod geometry;
pub mod state;
pub mod error;
pub mod cost;
pub mod planner;
pub mod indoor;
pub mod terrain;
pub mod aerial;
pub mod robot;
pub mod system;
pub mod presets;

