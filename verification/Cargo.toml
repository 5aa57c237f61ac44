[package]
name = "server_assistant"
version = "0.1.0"
edition = "2021"
publish = false

[dependencies]
anyhow = "1"
chrono = "0.4"
clap = { version = "4", features = ["derive"] }
env_logger = "0.11"
hyper = { version = "0.14", features = ["full"] }
log = "0.4"
once_cell = "1"
reqwest = { version = "0.12", default-features = false, features = ["json"] }
serde = { version = "1", features = ["derive"] }
serde_json = "1"
sha256 = "1"
system-info-lite = "*"
thiserror = "1"
tokio = { version = "1", features = ["full"] }
toml = "0.8"
