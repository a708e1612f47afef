[package]
name = "chat_core"
version = "0.1.0"
edition = "2021"
publish = false

[dependencies]
gh-emoji = "*"
petname = "*"
tide = "*"
tide-websockets = "*"
async-std = { version = "*", features = ["attributes"] }
futures-util = "*"
env_logger = "*"
log = "*"
