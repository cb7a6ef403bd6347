[package]
name = "helpful"
version = "0.1.0"
edition = "2021"
publish = false

[dependencies]
tracing-error = "*"
tracing = "*"
tracing-subscriber = { version = "*", features = ["env-filter"] }
