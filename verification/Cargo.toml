[package]
name = "trayplay"
version = "0.1.0"
edition = "2021"
publish = false

[dependencies]
futures = "*"
ksni = "*"
log = "*"
tokio = { version = "*", features = ["sync", "rt-multi-thread", "macros"] }
