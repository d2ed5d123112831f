[package]
name = "apt_console"
version = "0.1.0"
edition = "2021"
publish = false

[dependencies]
anyhow = "1"
fuzzy-matcher = "0.3"
ratatui = "0.29"
tokio = { version = "1", features = ["macros", "rt-multi-thread", "process", "sync", "io-util", "time"] }
