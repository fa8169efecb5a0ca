//! MAVLink I/O with a PX4-compatible flight controller.
pub mod async_io;
pub mod codec;
pub mod heartbeat;
pub mod messages;
pub mod serial;
