//! The simulation loop's decisions: what is shared with other threads, when a
//! tick is due, which sensors are sampled, and when the vehicle touches the
//! ground.
pub mod actuators;
pub mod contact;
pub mod origin;
pub mod pacing;
pub mod runner;
pub mod sampling;
pub mod state;
