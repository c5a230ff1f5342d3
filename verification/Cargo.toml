[package]
name = "fanout"
version = "0.1.0"
edition = "2021"
publish = false

[dependencies]
tokio = { version = "1", features = ["sync", "time", "rt-multi-thread", "macros"] }
uuid = { version = "1", features = ["v4"] }
rand = "0.8"
clap = "3"
env_logger = "0.10"
log = "0.4"
