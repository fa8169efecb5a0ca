//! Requests of a connected browser: what is refused, what is answered at once,
//! and what is passed on.
pub mod commands;
pub mod connection;
pub mod rate_limit;
pub mod shell;
pub mod terrain_ingress;
