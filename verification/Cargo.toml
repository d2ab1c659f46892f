[package]
name = "peckboard"
version = "0.1.0"
edition = "2021"
publish = false

[dependencies]
futures = "0.3"
gpio-cdev = { version = "*", features = ["async-tokio"] }
thiserror = "1"
tokio = { version = "1", features = ["macros", "rt-multi-thread", "sync", "time"] }
