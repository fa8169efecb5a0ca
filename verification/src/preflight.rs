//! Preflight checks: simulation mode and quadrotor frame.
//!
//! Before a build is configured, the browser asks whether the board reports
//! simulation mode and a quadrotor airframe. If not, provisioning captures the
//! parameters it is about to overwrite, has the browser store them, writes the
//! right ones, saves, reboots the board and checks that they took effect. A
//! restore writes a stored snapshot back the same way.
pub mod apply;
pub mod capture;
pub mod handler;
pub mod restart;
pub mod restore;
pub mod tables;
