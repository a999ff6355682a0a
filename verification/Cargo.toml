[package]
name = "actor_mailbox"
version = "0.1.0"
edition = "2021"
publish = false

[dependencies]
anyhow = "1"
tokio = { version = "1", features = ["rt", "net", "sync", "io-util", "macros"] }
