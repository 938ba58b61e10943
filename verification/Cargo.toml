[package]
name = "rustic_messenger"
version = "0.1.0"
edition = "2021"
publish = false

[dependencies]
lapin = "*"
tokio = { version = "*", features = ["full"] }
clap = "*"
env_logger = "*"
log = "*"
futures-lite = "*"
