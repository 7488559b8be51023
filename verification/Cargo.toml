[package]
name = "mosaic_github"
version = "0.1.0"
edition = "2021"
publish = false

[dependencies]
serde_json = "1"
base64 = "0.22"
reqwest = { version = "0.12", default-features = false }
tokio = { version = "1", features = ["rt", "macros"] }
