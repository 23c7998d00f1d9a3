[package]
name = "capture"
version = "0.1.0"
edition = "2021"
publish = false

[dependencies]
serde_json = "1"
flate2 = "1"
uuid = { version = "1", features = ["serde"] }
serde = { version = "1", features = ["derive"] }
time = { version = "0.3", features = ["serde-well-known"] }
tracing = "0.1"
bytes = "1"

[dev-dependencies]
base64 = "*"
