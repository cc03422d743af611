[package]
name = "wip_bot"
version = "0.1.0"
edition = "2021"
publish = false

[dependencies]
anyhow = "1"
chrono = { version = "0.4", default-features = false, features = ["now"] }
config = { version = "0.15", default-features = false, features = ["yaml"] }
dirs = "6"
env_logger = { version = "0.11", default-features = false }
log = "0.4"
matrix-sdk = { version = "0.14", default-features = false, features = ["e2e-encryption", "sqlite", "markdown"] }
mime = "0.3"
rand = "0.8"
serde = { version = "1", features = ["derive"] }
serde_json = "1"
tempfile = "3"
tokio = { version = "1", features = ["macros", "rt-multi-thread", "fs", "time"] }
url = "2"
