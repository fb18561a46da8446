[package]
name = "node_checker"
version = "0.1.0"
edition = "2021"
publish = false

[dependencies]
anyhow = "1"
async-trait = "0.1"
clap = { version = "3.2", features = ["derive"] }
log = "0.4"
poem-openapi = "*"
prometheus-parse = "0.2"
serde = { version = "1", features = ["derive"] }
tokio = { version = "1", features = ["time"] }
