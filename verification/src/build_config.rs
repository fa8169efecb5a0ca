//! Configuring the simulated vehicle from a build.
//!
//! A request names components; their specifications are fetched, the physics
//! and the rate-controller gains are computed, the gains are pushed to the
//! autopilot and confirmed one by one, and only then is the simulation
//! reconfigured. A failure anywhere leaves the running flight as it was.
pub mod chips;
pub mod configure;
pub mod ekf;
pub mod fetch;
pub mod push;
pub mod sensors;
pub mod specs;
