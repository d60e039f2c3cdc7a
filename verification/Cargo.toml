[package]
name = "drivechain_client"
version = "0.1.0"
edition = "2021"
publish = false

[dependencies]
base64 = "=0.23.1"
bitcoin = { version = "=0.32.102", features = ["serde"] }
hex = "=0.4.3"
http = "*"
jsonrpsee = { version = "=0.26.1", features = ["http-client"] }
monostate = "*"
serde = { version = "*", features = ["derive"] }
serde_json = "*"
serde_with = "*"
thiserror = "*"
