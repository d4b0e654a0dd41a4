[package]
name = "tickets"
version = "0.1.0"
edition = "2021"
publish = false

[dependencies]
json = "0.12"
thiserror = "1"
tokio = { version = "1", features = ["rt-multi-thread", "macros", "net", "io-util", "sync", "time"] }
