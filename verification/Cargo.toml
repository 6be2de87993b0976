[package]
name = "circuit_breaker"
version = "0.1.0"
edition = "2021"
publish = false

[dependencies]
metrics = "*"
tracing = "0.1"
sentry = { version = "*", default-features = false }
