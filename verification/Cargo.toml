[package]
name = "trap_core"
version = "0.1.0"
edition = "2021"
publish = false

[dependencies]
backtrace = "0.3"
serde = { version = "1", features = ["derive"] }
thiserror = "1"
