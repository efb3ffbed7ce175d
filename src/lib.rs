//! Steering, breakaway detection and timed removal for a jointed chain rig
//! that trails a controller body in a 2D physics scene.
//!
//! Lengths, positions and velocities are fixed-point integers in thousandths
//! of a world unit; times are milliseconds.
pub mod chain;
pub mod geometry;
pub mod breakaway;
pub mod delete_after;
pub mod input;
pub mod camera;
