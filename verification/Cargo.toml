[package]
name = "ws_debug"
version = "0.1.0"
edition = "2021"
publish = false

[dependencies]
chrono = "0.4"
env_logger = "*"
log = "0.4"
serde_json = "1"
url = "2"
ws = "0.9"
