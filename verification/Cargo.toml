[package]
name = "ibus_block"
version = "0.1.0"
edition = "2021"
publish = false

[dependencies]
regex = "1"
uuid = { version = "1", features = ["v4"] }
chan = "0.1"
crossbeam-channel = "0.5"
serde = { version = "1", features = ["derive"] }
