[package]
name = "ts_init"
version = "0.1.0"
edition = "2021"
publish = false

[dependencies]
tracing = "0.1"
tracing-subscriber = { version = "0.3", features = ["env-filter"] }
tracing-journald = "0.3"
tracing-appender = "0.2"
tracing-core = "0.1"
