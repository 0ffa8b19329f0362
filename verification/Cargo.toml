[package]
name = "shared"
version = "0.1.0"
edition = "2021"
publish = false

[dependencies]
chrono = "=0.4.45"
crc = "=3.4.0"
ctrlc = "=3.5.2"
dashmap = "=6.2.1"
dialoguer = "=0.12.0"
rand = "=0.9.5"
serde = { version = "=1.0.229", features = ["derive"] }
serialport = { version = "4", default-features = false }
sudo = "=0.6.0"
tokio = { version = "=1.54.1", features = ["rt-multi-thread", "macros", "sync", "time", "net"] }
toml = "=0.8.23"
