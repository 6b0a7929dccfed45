[package]
name = "proto"
version = "0.1.0"
edition = "2021"
publish = false

[dependencies]
flate2 = "1"
tar = "0.4"
xz2 = { version = "0.1", features = ["static"] }
zip = { version = "0.6", default-features = false, features = ["deflate"] }
starbase_utils = "*"
sha2 = "0.10"
serde = { version = "1", features = ["derive"] }
serde_json = "1"
reqwest = { version = "0.12", default-features = false }
tokio = { version = "1", features = ["rt", "process", "macros", "fs", "io-util"] }

[dev-dependencies]
tempfile = "3"
