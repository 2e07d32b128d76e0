[package]
name = "udp_framed"
version = "0.1.0"
edition = "2021"
publish = false

[dependencies]
bytes = "1"
tokio = { version = "1", features = ["net"] }
futures-core = "0.3"
futures-sink = "0.3"
tokio-stream = "0.1"
tokio-util = "0.7"
pin-project-lite = "0.2"
