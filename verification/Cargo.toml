[package]
name = "toys"
version = "0.1.0"
edition = "2021"

[dependencies]
lazy_static = "1"
reqwest = { version = "0.12", features = ["blocking", "json"] }
serde = { version = "1", features = ["derive"] }
serde_json = "1"
