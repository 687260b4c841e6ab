[package]
name = "quic_transport"
version = "0.1.0"
edition = "2021"
publish = false

[dependencies]
bytes = "1"
http = "0.2"
quinn = { version = "0.10", default-features = false }

[dev-dependencies]
tokio-util = { version = "0.7", features = ["codec"] }
