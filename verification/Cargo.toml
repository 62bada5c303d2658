[package]
name = "gateway_client"
version = "0.1.0"
edition = "2021"
publish = false

[dependencies]
failure = "0.1"
futures = "0.1"
hyper = "0.11"
juniper = "0.9"
log = "0.4"
serde = { version = "1", features = ["derive"] }
serde_json = "1"
tokio-core = "0.1"
