[package]
name = "azure_sdk_cosmos"
version = "0.1.0"
edition = "2021"
publish = false

[dependencies]
azure_sdk_core = "0.43"
chrono = "0.4"
http = "0.2"
hyper = "0.13"
hyper-rustls = "0.20"
serde = { version = "1.0", features = ["derive"] }
serde_json = "1.0"
