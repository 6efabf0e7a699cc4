[package]
name = "ws_ugv_protocol"
version = "0.1.0"
edition = "2021"
publish = false

[dependencies]
serde_json = { version = "=1.0.151", features = ["float_roundtrip"] }
tokio = { version = "=1.53.2", features = ["rt-multi-thread", "io-util"] }
tokio-serial = "=5.5.0"
futures = "=0.3.34"
r2r = "=0.9.7"
