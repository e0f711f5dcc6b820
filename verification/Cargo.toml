[package]
name = "chat_hub"
version = "0.1.0"
edition = "2021"
publish = false

[dependencies]
base64 = "0.21"
bcrypt = "0.15"
env_logger = "0.10"
futures = "0.3"
log = "0.4"
mime_guess = "2"
rusqlite = "0.31"
serde = { version = "1", features = ["derive"] }
serde_json = "1"
tokio = { version = "1", features = ["sync", "rt-multi-thread", "macros", "fs"] }
tokio-stream = "0.1"
uuid = { version = "1", features = ["v4"] }
warp = "0.3"
