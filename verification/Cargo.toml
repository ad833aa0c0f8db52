[package]
name = "dynamic_dns"
version = "0.1.0"
edition = "2021"
publish = false

[dependencies]
domain = "0.7"
hyper = { version = "0.14", features = ["full"] }
serde = { version = "1", features = ["derive"] }
serde_json = "1"
tokio = { version = "1", features = ["full"] }
