[package]
name = "test_runner"
version = "0.1.0"
edition = "2021"
publish = false

[dependencies]
env_logger = "0.9.3"
log = "0.4"
futures = "0.3"
tokio = { version = "1", features = ["rt"] }
sp-keyring = "*"
