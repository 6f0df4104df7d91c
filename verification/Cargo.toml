[package]
name = "cats_log"
version = "0.1.0"
edition = "2021"
publish = false

[dependencies]
nalgebra = { version = "*", features = ["serde-serialize"] }
serde = { version = "*", features = ["derive"] }
serde_json = "*"
