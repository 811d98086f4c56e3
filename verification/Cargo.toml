[package]
name = "lsplex"
version = "0.1.0"
edition = "2021"
publish = false

[dependencies]
clap = { version = "4", features = ["derive"] }
serde_json = "1"
tokio = { version = "1", features = ["rt", "io-std", "io-util", "process", "sync", "time", "macros"] }
