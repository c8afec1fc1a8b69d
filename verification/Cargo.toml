[package]
name = "laad"
version = "0.1.0"
edition = "2021"
publish = false

[dependencies]
tokio = { version = "1", features = ["rt-multi-thread", "macros", "sync", "time"] }
rand = "0.8"
clap = "4"
tracing = "0.1"
tracing-subscriber = "0.3"
