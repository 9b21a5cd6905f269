[package]
name = "balancebeam"
version = "0.1.0"
edition = "2021"
publish = false

[dependencies]
rand = "0.8"
clap = { version = "4", features = ["derive"] }
tokio = { version = "1", features = ["full"] }
http = "1"
log = "0.4"
pretty_env_logger = "0.5"
