[package]
name = "tendril_core"
version = "0.1.0"
edition = "2021"
publish = false

[dependencies]
regex = "1"
tokio = { version = "1", features = ["full"] }
reqwest = { version = "0.12", default-features = false, features = ["rustls-tls", "json", "stream"] }
serde = { version = "1", features = ["derive"] }
serde_json = "1"
toml = "*"
rustypipe = "*"
directories = "*"
flate2 = "1"
tar = "*"
zip = { version = "*", default-features = false, features = ["deflate"] }
futures = "0.3"
tracing = "0.1"
thiserror = "*"
