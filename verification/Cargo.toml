[package]
name = "monitord"
version = "0.1.0"
edition = "2021"
publish = false

[dependencies]
configparser = { version = "3", features = ["indexmap"] }
procfs = "*"
serde = { version = "1", features = ["derive"] }
serde_json = "1"
anyhow = "1"
clap = { version = "4", features = ["derive"] }
tokio = { version = "1", features = ["rt-multi-thread", "fs", "macros"] }
uzers = "*"
indexmap = "2"
