[package]
name = "libfjs"
version = "0.1.0"
edition = "2021"
publish = false

[dependencies]
anyhow = "1"
rquickjs = { version = "*", features = ["full-async"] }
tokio = { version = "1", features = ["rt", "sync", "macros", "fs", "io-util"] }
