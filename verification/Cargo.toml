[package]
name = "lapce_shell"
version = "0.1.0"
edition = "2021"
publish = false

[dependencies]
druid = "0.7"
parking_lot = { version = "0.11", features = ["deadlock_detection"] }
