[package]
name = "tp_lite_stats"
version = "0.1.0"
edition = "2021"
publish = false

[dependencies]
parking_lot = "0.12"
serde = { version = "1", features = ["derive"] }

[dev-dependencies]
serde_json = "1"
