[package]
name = "session_index"
version = "0.1.0"
edition = "2021"
publish = false

[dependencies]
rand = "0.8"
chrono = "*"
actix-web = "*"
tokio = { version = "*", features = ["full"] }
grammers-client = "*"
glass_pumpkin = "=2.0.0-rc0"
async-stream = "*"
futures = "*"
serde = { version = "*", features = ["derive"] }
toml = "*"
easy-config-store = "*"
eyre = "*"
anyhow = "*"
clap = { version = "*", features = ["derive"] }
colog = "*"
colored = "*"
env_logger = "*"
log = "*"
