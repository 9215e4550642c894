[package]
name = "ncmmiao"
version = "0.1.0"
edition = "2021"
publish = false

[dependencies]
aes = "0.8"
base64 = "0.22"
serde_json = "1"
audiotags = "0.5"
chrono = "0.4"
clap = { version = "4", features = ["derive"] }
colored = "2"
env_logger = "0.11"
log = "0.4"
walkdir = "2"
