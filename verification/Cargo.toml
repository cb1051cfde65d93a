[package]
name = "tcpperf"
version = "0.1.0"
edition = "2021"
publish = false

[dependencies]
clap = { version = "4", features = ["derive"] }
pbr = "1"
tokio = { version = "1", features = ["full"] }
