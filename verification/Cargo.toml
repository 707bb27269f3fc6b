[package]
name = "stream_throttle"
version = "0.5.1"
edition = "2021"
publish = false

[dependencies]
failure = "0.1"
futures = "0.3"
futures-timer = "3"
log = "0.4"
pin-utils = "0.1"
tokio = { version = "1", default-features = false, features = ["time"] }
