[package]
name = "perima"
version = "0.1.0"
edition = "2021"
publish = false

[dependencies]
chrono = "=0.4.45"
flume = "=0.12.0"
minijinja = "2"
r2d2 = "=0.8.10"
r2d2_sqlite = "0.32"
refinery = { version = "*", features = ["rusqlite"] }
rusqlite = { version = "*", features = ["bundled"] }
serde = { version = "=1.0.229", features = ["derive"] }
thiserror = "=2.0.21"
tokio-util = "=0.7.20"
tracing = "=0.1.44"
unicode-normalization = "=0.1.26"
uuid = { version = "=1.29.0", features = ["v7", "v4"] }

[dev-dependencies]
blake3 = "=1.8.7"
