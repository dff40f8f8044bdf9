[package]
name = "snowflake_auth"
version = "0.1.0"
edition = "2021"
publish = false

[dependencies]
rsa = "0.9"
pkcs8 = { version = "0.10", features = ["pem"] }
pkcs1 = "0.7"
sha2 = "0.10"
base64 = "0.13"
jsonwebtoken = "9"
serde_json = "1"

[dev-dependencies]
rand = "0.8"
