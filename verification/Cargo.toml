[package]
name = "nico"
version = "0.1.0"
edition = "2021"
publish = false

[dependencies]
dashmap = "6"
dhcproto = "0.12"
mac_address = "1"
serde = { version = "1", features = ["derive"] }
serde_json = "1"
thiserror = "2"
tracing = "0.1"
uuid = "1"
