[package]
name = "kube_conf"
version = "0.1.0"
edition = "2021"
publish = false

[dependencies]
serde_yaml = "0.8"
serde = "1"
error-chain = { version = "0.12", default-features = false }
