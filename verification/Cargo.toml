[package]
name = "session_actor"
version = "0.1.0"
edition = "2021"
publish = false

[dependencies]
tokio = { version = "1", features = ["sync", "rt", "rt-multi-thread", "macros"] }
portable-pty = "0.8"
uuid = { version = "1", features = ["v4"] }
anyhow = "1"
