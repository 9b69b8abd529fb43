[package]
name = "trcd"
version = "0.1.0"
edition = "2021"
publish = false

[dependencies]
tokio = { version = "=1.53.2", features = ["sync", "rt-multi-thread", "macros", "net", "time"] }
axum = { version = "=0.8.9", features = ["ws"] }
serde = { version = "*", features = ["derive"] }
serde_json = "=1.0.151"
jsonwebtoken = { version = "=11.1.0", features = ["rust_crypto"] }
futures-util = "*"
log = "*"
env_logger = "*"
chrono = "=0.4.45"
