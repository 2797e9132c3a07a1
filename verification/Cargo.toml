[package]
name = "batman_robin"
version = "0.1.0"
edition = "2021"
publish = false

[dependencies]
validator = "*"
macaddr = "1"
neli = { version = "*", features = ["async"] }
tokio = { version = "1", features = ["rt-multi-thread", "macros", "net", "sync", "time"] }
tokio-stream = "*"
futures = "*"
async-trait = "*"
clap = "*"
comfy-table = "*"
tracing = "*"
tracing-subscriber = { version = "*", features = ["env-filter"] }
