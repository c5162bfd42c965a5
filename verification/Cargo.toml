[package]
name = "secret_gateway"
version = "0.1.0"
edition = "2021"
publish = false

[dependencies]
dbus-secret-service = { version = "*", features = ["crypto-rust", "vendored"] }
keyring-core = "*"
