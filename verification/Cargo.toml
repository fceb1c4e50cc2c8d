[package]
name = "remote_state"
version = "0.1.0"
edition = "2021"
publish = false

[dependencies]
revm = { version = "*", default-features = false, features = ["std"] }
tokio = { version = "*", features = ["rt-multi-thread", "time"] }
anyhow = "*"
