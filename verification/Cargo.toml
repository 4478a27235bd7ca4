[package]
name = "kv_plugin"
version = "0.1.0"
edition = "2021"
publish = false

[dependencies]
tokio = { version = "=1.53.2", features = ["rt-multi-thread", "macros", "time"] }
tokio-stream = { version = "0.1", features = ["net"] }
tonic = "=0.12.3"
tonic-health = "=0.12.3"
prost = "=0.13.5"
