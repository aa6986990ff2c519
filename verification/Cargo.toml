[package]
name = "txsign"
version = "0.1.0"
edition = "2021"
publish = false

[dependencies]
ring = "0.17"
serde = { version = "1", features = ["derive"] }

[dev-dependencies]
rand = "0.8"
