[package]
name = "stepper"
version = "0.1.0"
edition = "2021"
publish = false

[dependencies]
gpio-cdev = { version = "*", features = ["async-tokio"] }
tokio = { version = "*", features = ["rt-multi-thread", "macros", "time", "sync"] }
futures = "*"
thiserror = "*"
log = "*"
simple_logger = "*"
