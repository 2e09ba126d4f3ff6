[package]
name = "portals_api"
version = "0.1.0"
edition = "2021"
publish = false

[dependencies]
uuid = { version = "1", features = ["v4", "serde"] }
serde = { version = "1", features = ["derive"] }
serde_json = "1"
ron = "0.8"
once_cell = "1"
chrono = { version = "0.4", features = ["serde"] }
itertools = "0.10"
jsonwebtoken = "7"
