[package]
name = "crossroads"
version = "0.1.0"
edition = "2021"
publish = false

[dependencies]
tokio = { version = "*", features = ["rt-multi-thread", "macros", "signal", "sync"] }
pnet_datalink = "*"
futures-util = "*"
async-stream = "*"
tracing = "*"
tracing-subscriber = { version = "*", features = ["env-filter", "fmt"] }
