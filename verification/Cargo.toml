[package]
name = "backend"
version = "0.1.0"
edition = "2021"
publish = false

[dependencies]
base64 = "=0.22.1"
chrono = { version = "=0.4.45", default-features = false, features = ["alloc", "std"] }
ring = "=0.17.14"
uuid = "=1.29.0"
prost-types = "=0.14.4"
tonic = { version = "=0.14.9", default-features = false }
tokio = { version = "=1.54.1", features = ["rt", "sync"] }
tokio-stream = "=0.1.19"
