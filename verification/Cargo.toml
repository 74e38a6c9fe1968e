[package]
name = "transmission_rpc"
version = "0.1.0"
edition = "2021"
publish = false

[dependencies]
base64 = "*"
reqwest = { version = "*", default-features = false }
tokio = { version = "*", features = ["rt-multi-thread", "macros"] }
serde_json = "*"
log = "*"
env_logger = "*"
dotenv = "*"

[dev-dependencies]
chrono = "*"
