[package]
name = "niri_client"
version = "0.1.0"
edition = "2021"
publish = false

[dependencies]
tokio = { version = "1", features = ["net", "io-util"] }

[dev-dependencies]
serde_json = "1"
