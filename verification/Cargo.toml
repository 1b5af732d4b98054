[package]
name = "whisp"
version = "0.1.0"
edition = "2021"
publish = false

[dependencies]
sha1 = "*"
dirs = "*"
anyhow = "*"
bytes = "*"
serde = { version = "*", features = ["derive"] }
toml = "*"
tokio = { version = "*", features = ["rt-multi-thread", "sync", "time", "macros"] }
reqwest = { version = "*", default-features = false, features = ["multipart", "rustls-tls", "stream"] }
futures-util = "*"
cpal = "*"
zip = { version = "*", default-features = false, features = ["deflate"] }
