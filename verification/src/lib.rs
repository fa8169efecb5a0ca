//! Hardware-in-the-loop drone simulation daemon.
//!
//! The modules hold everything the daemon decides and computes on plain
//! values: wire frames, the terrain cache, the provisioning and build
//! configuration state machines, rate limits, link supervision. Sockets,
//! serial ports, clocks, floating point and JSON stay with the caller, which
//! hands plain values in and performs the actions handed back.
pub mod board_identity;
pub mod build_config;
pub mod bytes;
pub mod daemon;
pub mod exchange;
pub mod flight;
pub mod handler;
pub mod ieee;
pub mod mavlink_io;
pub mod nsh;
pub mod param_io;
pub mod param_read;
pub mod preflight;
pub mod protocol;
pub mod server;
pub mod simulation;
pub mod snapshot;
pub mod terrain;
pub mod text;
pub mod wire;
