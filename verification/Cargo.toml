[package]
name = "runy_actor"
version = "0.1.0"
edition = "2021"
publish = false

[dependencies]
tokio = { version = "1", features = ["sync", "rt", "rt-multi-thread", "time", "macros"] }
dashmap = "6"
anyhow = "1"
thiserror = "1"
tracing = "0.1"
futures = "0.3"
parking_lot = "0.12"
arc-swap = "1"
take-once = "*"
downcast-rs = "*"
