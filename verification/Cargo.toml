[package]
name = "eth_bridge"
version = "0.1.0"
edition = "2021"
publish = false

[dependencies]
clap = { version = "*", features = ["derive"] }
pnet = "*"
tokio = { version = "*", features = ["rt-multi-thread", "macros", "net", "io-util", "sync"] }
