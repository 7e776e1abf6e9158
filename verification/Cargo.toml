[package]
name = "executable_stories"
version = "0.1.0"
edition = "2021"
publish = false

[dependencies]
opentelemetry = "*"
serde = { version = "1", features = ["derive"] }
serde_json = "1"
