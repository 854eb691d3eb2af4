[package]
name = "batchmint"
version = "0.1.0"
edition = "2021"
publish = false

[dependencies]
chrono = "*"
anyhow = "*"
tokio = { version = "*", features = ["rt-multi-thread", "macros"] }
