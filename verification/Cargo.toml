[package]
name = "dotmatrix"
version = "0.1.0"
edition = "2021"
publish = false

[dependencies]
url = "2"
tokio = { version = "1", features = ["rt-multi-thread", "macros", "sync"] }
open = "*"
tracing-subscriber = "0.3"
