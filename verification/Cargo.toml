[package]
name = "oas_core"
version = "0.1.0"
edition = "2021"
publish = false

[dependencies]
serde = { version = "=1.0.229", features = ["derive"] }
serde_json = "=1.0.154"
json-patch = "=4.2.0"
sha2 = "=0.10.9"
rocket = { version = "=0.5.2", features = ["json"] }
reqwest = { version = "=0.11.27", default-features = false }
