[package]
name = "onetun"
version = "0.1.0"
edition = "2021"
publish = false

[dependencies]
rand = "0.8"
smoltcp = "0.8"
tokio = { version = "1", features = ["rt-multi-thread", "net", "sync", "time", "macros", "io-util"] }
anyhow = "1"
log = "0.4"
pretty_env_logger = "*"
