[package]
name = "wsgator"
version = "0.1.0"
edition = "2021"
publish = false

[dependencies]
async-trait = "*"
clap = { version = "4", features = ["derive"] }
futures = "*"
tokio = { version = "1", features = ["full"] }
tokio-tungstenite = "*"
