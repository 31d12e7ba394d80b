[package]
name = "myguard_backend"
version = "0.1.0"
edition = "2021"
publish = false

[dependencies]
candid = "*"
csv = "*"
ic-cdk = "*"
ic-llm = "*"
serde = { version = "*", features = ["derive"] }
