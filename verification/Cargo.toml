[package]
name = "oidc_core"
version = "0.1.0"
edition = "2021"
publish = false

[dependencies]
base64 = "=0.22.1"
hmac = "=0.12.1"
sha2 = "=0.10.9"
rsa = { version = "=0.9.10", features = ["sha2"] }
p256 = "=0.13.2"
serde_json = "=1.0.151"
futures = "=0.3.34"
oauth2 = "=5.0.0"
url = "=2.5.8"
chrono = "=0.4.45"
