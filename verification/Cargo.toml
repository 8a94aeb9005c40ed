[package]
name = "susbot_backend"
version = "0.1.0"
edition = "2021"
publish = false

[dependencies]
regex = "=1.13.1"
serde_json = { version = "=1.0.154", features = ["preserve_order"] }
serde = { version = "=1.0.229", features = ["derive"] }
serde_derive = "=1.0.229"
candid = "=0.10.39"
ic-cdk = "0.18"
