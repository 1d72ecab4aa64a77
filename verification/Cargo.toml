[package]
name = "video_transcriber"
version = "0.1.0"
edition = "2021"
publish = false

[dependencies]
sha2 = "0.10"
toml = "0.8"
serde = { version = "1", features = ["derive"] }
serde_json = "1"
reqwest = { version = "0.12", default-features = false, features = ["json", "rustls-tls"] }
tokio = { version = "1", features = ["time"] }
