[package]
name = "steam_bridge"
version = "0.1.0"
edition = "2021"
publish = false

[dependencies]
tokio = { version = "=1.54.1", features = ["sync", "time", "rt"] }
steamworks = { version = "=0.13.1", features = ["serde", "raw-bindings"] }
napi = { version = "=3.15.0", features = ["napi6", "async", "serde-json"] }
napi-derive = "=3.6.13"
serde = { version = "=1.0.229", features = ["derive"] }
serde_json = "=1.0.154"
lazy_static = "=1.5.1"
better-panic = "=0.3.0"
