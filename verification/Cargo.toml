[package]
name = "ibus_gonhanh"
version = "0.1.0"
edition = "2021"
publish = false

[dependencies]
env_logger = "*"
log = "*"
tokio = { version = "*", features = ["macros", "rt-multi-thread"] }
zbus = "*"
