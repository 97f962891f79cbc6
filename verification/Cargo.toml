[package]
name = "neuro_kar_manager"
version = "0.1.0"
edition = "2021"
publish = false

[dependencies]
libc = "=0.2.191"
rclone-sdk = "*"
regex = "=1.13.1"
reqwest = { version = "0.12", default-features = false, features = ["json"] }
serde_json = "=1.0.154"
tokio = { version = "=1.54.1", features = ["fs", "io-util", "macros", "process", "rt", "sync", "time"] }
zip = { version = "=9.0.5", default-features = false, features = ["deflate"] }
