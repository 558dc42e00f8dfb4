[package]
name = "gtpv2"
version = "0.1.0"
edition = "2021"
publish = false

[dependencies]
tokio-util = { version = "0.7", features = ["codec", "net"] }
tokio = { version = "1", features = ["macros", "rt-multi-thread", "net", "sync", "time"] }
futures = "0.3"
clap = { version = "4", features = ["derive"] }
anyhow = "1"
thiserror = "2"
dashmap = "6"
hdrhistogram = { version = "7", default-features = false }
humantime = "2"
