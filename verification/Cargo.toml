[package]
name = "starchart"
version = "0.1.0"
edition = "2021"
publish = false

[dependencies]
serde = { version = "=1.0.229", features = ["derive"] }
serde_json = "=1.0.154"
serde_yaml = "=0.8.26"
toml = "=0.5.11"
bincode = "=1.3.3"
serde_cbor = "=0.11.2"
ron = "=0.7.1"
serde_qs = "=0.8.5"
serde-value = "=0.7.0"
dashmap = "=5.5.3"
futures-util = "=0.3.34"
futures = "=0.3.34"
tokio = { version = "=1.54.1", features = ["fs", "rt", "macros", "sync", "io-util"] }
parking_lot = "=0.12.5"
thiserror = "=1.0.69"
syn = { version = "=1.0.109", features = ["full"] }
quote = "=1.0.47"
proc-macro2 = "=1.0.107"
