[package]
name = "forward_proxy"
version = "0.1.0"
edition = "2021"
publish = false

[dependencies]
clap = "2"
hyper = { version = "0.14", features = ["full"] }
hyper-proxy = { version = "0.9", default-features = false }
tokio = { version = "1", features = ["macros", "rt-multi-thread"] }
