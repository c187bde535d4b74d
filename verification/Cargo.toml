[package]
name = "abi_gateway"
version = "0.1.0"
edition = "2021"
publish = false

[dependencies]
sha2 = "0.10"
hex = "0.4"
serde_json = "1"
serde = { version = "1", features = ["derive"] }
actix-web = "4"
actix-cors = "0.7"
tokio = { version = "1", features = ["rt", "macros"] }
tokio-postgres = "0.7"
log = "0.4"
env_logger = "0.11"
