[package]
name = "kissmp_core"
version = "0.5.0"
edition = "2021"
publish = false

[dependencies]
serde = { version = "*", features = ["derive"] }
serde_json = "*"
rlua = "*"
log = "*"
pretty_env_logger = "*"
chrono = "*"
