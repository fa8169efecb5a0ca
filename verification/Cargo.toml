[package]
name = "hitl_daemon"
version = "0.1.0"
edition = "2021"
publish = false

[dependencies]
axum = { version = "0.7", features = ["ws"] }
crossbeam-channel = "0.5"
futures-util = "0.3"
mavlink = { version = "0.13.1", default-features = false, features = ["std", "ardupilotmega"] }
nalgebra = "0.33"
parking_lot = "0.12"
reqwest = { version = "0.12", default-features = false, features = ["json"] }
serde = { version = "1", features = ["derive"] }
serde_json = "1"
serialport = { version = "4", default-features = false }
spin_sleep = "1"
thiserror = "1"
tokio = { version = "1", features = ["rt", "sync", "time", "macros", "net", "io-util"] }
tokio-serial = { version = "5", default-features = false }
tower-http = { version = "0.5", features = ["cors"] }
tracing = "0.1"
