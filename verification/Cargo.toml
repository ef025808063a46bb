[package]
name = "tgcalls"
version = "0.2.0"
edition = "2021"
publish = false

[dependencies]
ferogram = "*"
thiserror = "2"
tokio = { version = "1", features = ["rt", "rt-multi-thread", "sync", "time", "macros"] }
tracing = "0.1"
