[package]
name = "prefork"
version = "0.1.0"
edition = "2021"
publish = false

[dependencies]
anyhow = "=1.0.104"
clap = { version = "=4.6.7", features = ["derive", "env"] }
sendfd = { version = "=0.4.5", features = ["tokio"] }
tokio = { version = "=1.53.2", features = ["net", "signal", "macros", "rt-multi-thread"] }
tracing = "=0.1.44"
tracing-subscriber = { version = "=0.3.23", features = ["env-filter", "fmt"] }
