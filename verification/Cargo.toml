[package]
name = "stream-gateway"
version = "0.1.0"
edition = "2021"
publish = false

[dependencies]
actix-web = "4"
anyhow = "1"
async-trait = "0.1"
bytes = "1"
chrono = "0.4"
env_logger = "0.11"
futures = "0.3"
if-addrs = "0.13"
log = "0.4"
once_cell = "1"
prometheus = "0.14"
serde = { version = "1", features = ["derive"] }
serde_json = "1"
socket2 = { version = "0.5", features = ["all"] }
sqlx = { version = "0.8", default-features = false, features = ["runtime-tokio", "sqlite", "macros", "migrate", "chrono"] }
srt-rs = "*"
tokio = { version = "1", features = ["full"] }
tokio-util = "0.7"
uuid = { version = "1", features = ["v4"] }
