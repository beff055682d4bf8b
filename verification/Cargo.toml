[package]
name = "memflowup"
version = "0.1.0"
edition = "2021"
publish = false

[dependencies]
sha256 = "*"
crc = "*"
serde = { version = "*", features = ["derive"] }
serde_json = "*"
chrono = { version = "*", features = ["serde"] }
rhai = "*"
zip = { version = "*", default-features = false, features = ["deflate"] }
dirs = "*"
memflow-registry = "*"
