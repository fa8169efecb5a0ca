//! Binary message format between the daemon and the browser.
//!
//! Every frame starts with one tag byte. Telemetry, commands and
//! acknowledgements are fixed binary layouts; configuration, provisioning and
//! capability frames carry a JSON body after the tag. The JSON itself is read
//! and written by the caller: this module frames and checks the bytes.
pub mod command;
pub mod config;
pub mod envelope;
pub mod frames;
pub mod provisioning;
pub mod state_update;
pub mod tags;
pub mod terrain_tiles;
