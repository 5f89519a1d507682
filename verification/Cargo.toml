[package]
name = "nft_registry"
version = "0.1.0"
edition = "2021"
publish = false

[dependencies]
base64 = "0.13"
candid = "0.8"
ic-cdk = "0.6"
ic-cdk-macros = "0.6"
image = { version = "0.24", default-features = false, features = ["png"] }
qrcode = { version = "0.13", default-features = false, features = ["image"] }
serde = { version = "1", features = ["derive"] }
serde_json = "1"
