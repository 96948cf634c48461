[package]
name = "commons"
version = "0.1.0"
edition = "2021"
publish = false

[dependencies]
async-trait = "0.1"
bincode = "1"
bytes = "1"
clap = { version = "4", features = ["derive"] }
futures = "0.3"
interfaces = "0.0.9"
parity-tokio-ipc = "0.9"
serde = { version = "1", features = ["derive"] }
tokio = { version = "1", features = ["full"] }
uuid = { version = "1", features = ["v4", "serde"] }
