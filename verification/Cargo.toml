[package]
name = "blendfarm"
version = "0.1.0"
edition = "2021"
publish = false

[dependencies]
uuid = { version = "=1.29.0", features = ["v4"] }
semver = "=1.0.28"
urlencoding = "=2.1.3"
maud = "=0.27.0"
serde = { version = "=1.0.229", features = ["derive"] }
serde_json = "=1.0.154"
bincode = "=1.3.3"
libp2p = { version = "*", default-features = false }
