[package]
name = "hive_discovery"
version = "0.1.0"
edition = "2021"
publish = false

[dependencies]
mdns-sd = "*"
tokio = { version = "1", features = ["sync"] }
serde = { version = "1", features = ["derive"] }
thiserror = "*"
log = "0.4"
