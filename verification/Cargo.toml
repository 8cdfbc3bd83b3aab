[package]
name = "rust_core"
version = "0.1.0"
edition = "2021"
publish = false

[dependencies]
fixed = "1"
tokio = { version = "1", features = ["rt-multi-thread", "macros", "io-util", "time", "sync", "signal"] }
tokio-serial = { version = "5", default-features = false }
chrono = "0.4"
anyhow = "1"
async-trait = "0.1"
