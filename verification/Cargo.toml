[package]
name = "steamos-manager"
version = "0.1.0"
edition = "2021"
publish = false

[dependencies]
anyhow = "=1.0.104"
nix = { version = "=0.30.1", default-features = false, features = ["time"] }
regex = "=1.13.1"
serde = { version = "=1.0.229", features = ["derive"] }
serde_json = "1"
tokio = { version = "=1.54.1", default-features = false, features = ["fs", "io-util", "macros", "net", "rt-multi-thread", "signal", "sync", "time"] }
tokio-util = { version = "=0.7.20", default-features = false }
toml = "=0.8.23"
tracing = "=0.1.44"
zbus = { version = "=5.19.0", default-features = false, features = ["tokio"] }
