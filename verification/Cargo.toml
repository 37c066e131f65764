[package]
name = "tls_stream"
version = "0.1.0"
edition = "2021"
publish = false

[dependencies]
rustls = "0.21"
futures = "0.3"
parking_lot = "0.12"
tokio = { version = "1", features = ["net", "rt", "io-util", "sync"] }

[dev-dependencies]
rcgen = "0.13"
