[package]
name = "registry-conformance"
version = "0.1.0"
edition = "2021"
publish = false

[dependencies]
base64 = "0.22"
futures = "0.3"
regex = "1"
serde = { version = "1", features = ["derive"] }
snafu = "0.8"
tempfile = "3"
tokio = { version = "1", features = ["fs", "process"] }
toml = "0.8"
