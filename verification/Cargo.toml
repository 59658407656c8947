[package]
name = "lan_scanner"
version = "0.1.0"
edition = "2021"
publish = false

[dependencies]
log = "*"
mdns-sd = "*"
serde = { version = "*", features = ["derive"] }
tokio = { version = "*", features = ["sync", "rt", "rt-multi-thread", "time", "macros"] }
