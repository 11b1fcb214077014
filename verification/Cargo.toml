[package]
name = "authenticate-oidc"
version = "0.1.0"
edition = "2021"
publish = false

[dependencies]
serde_json = "=1.0.154"
rsa = { version = "=0.9.10", features = ["sha2"] }
p256 = { version = "=0.13.2", features = ["ecdsa"] }

[dev-dependencies]
base64 = "=0.22.1"
rand = "=0.8.8"
