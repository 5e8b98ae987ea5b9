[package]
name = "gateway_codec"
version = "0.1.0"
edition = "2021"
publish = false

[dependencies]
chrono = { version = "0.4", default-features = false, features = ["std", "clock"] }
emoji = "*"
serde = { version = "1", features = ["derive"] }

[dev-dependencies]
serde_json = "1"
