[package]
name = "cmd"
version = "0.1.0"
edition = "2021"
publish = false

[dependencies]
backtrace = "0.3"
clap = { version = "3", features = ["derive"] }
config = { version = "0.13", default-features = false, features = ["toml"] }
futures = "0.3"
metrics = "0.21"
serde = { version = "1", features = ["derive"] }
snafu = "0.7"
tokio = { version = "1", features = ["rt-multi-thread", "macros"] }
tracing = "0.1"
tracing-appender = "0.2"
tracing-subscriber = "0.3"
