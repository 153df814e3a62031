//! The linear least squares problem of one iteration: its assembly from the
//! factors' linearisations, and its solution.

pub mod system;

pub use system::{linearize, LinearSystem, SystemModel};
