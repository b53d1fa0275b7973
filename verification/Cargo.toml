[package]
name = "rgb_lightning_node"
version = "0.1.0"
edition = "2021"
publish = false

[dependencies]
bitcoin = { version = "=0.32.102", features = ["base64"] }
lightning = "=0.2.7"
serde_json = "=1.0.154"
thiserror = "=2.0.21"
vls-protocol = "*"
vls-protocol-client = "*"
vls-protocol-signer = "*"
