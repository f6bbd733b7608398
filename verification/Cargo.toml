[package]
name = "payjoin"
version = "0.1.0"
edition = "2021"
publish = false

[dependencies]
bip21 = "=0.3.1"
bitcoin = { version = "=0.30.3", features = ["base64"] }
url = "=2.5.8"
serde_json = "=1.0.154"
ohttp = "0.5"
