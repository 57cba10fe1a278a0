[package]
name = "apllodb-shared-components"
version = "0.1.0"
edition = "2021"
publish = false

[dependencies]
bincode = "1"
fastrand = "1"
rand = "0.8"
serde = { version = "1", features = ["derive"] }
env_logger = "0.9"
once_cell = "1"
