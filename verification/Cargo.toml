[package]
name = "detour"
version = "0.1.0"
edition = "2021"
publish = false

[dependencies]
bincode = { version = "=2.0.1", features = ["derive"] }
drain = "=0.1.2"
futures = "=0.3.34"
libc = "=0.2.191"
miette = "=7.6.0"
rand = "=0.9.5"
schemars = "=0.8.22"
serde = { version = "=1.0.229", features = ["derive"] }
tokio = { version = "=1.54.1", features = ["fs", "io-util"] }
tokio-stream = "=0.1.19"
tracing = "=0.1.44"
tracing-subscriber = { version = "=0.3.23", features = ["env-filter"] }
