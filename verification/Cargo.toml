[package]
name = "cosign_verify"
version = "0.1.0"
edition = "2021"
publish = false

[dependencies]
base64 = "*"
ecdsa = { version = "*", features = ["verifying", "der", "pem"] }
p256 = "*"
x509-parser = "*"
