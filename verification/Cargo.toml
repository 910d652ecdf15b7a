[package]
name = "vfcache"
version = "0.1.0"
edition = "2021"
publish = false

[dependencies]
camino = "1"
nix = "0.27"
once_cell = "1"
tokio = { version = "1", features = ["sync", "rt", "rt-multi-thread", "time"] }
tracing = "0.1"

[dev-dependencies]
rand = "0.8"
