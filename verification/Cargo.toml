[package]
name = "gekidan"
version = "0.1.0"
edition = "2021"
publish = false

[dependencies]
actix-web = "*"
awc = "*"
base64 = "*"
chrono = "*"
openssl = "*"
serde = { version = "*", features = ["derive"] }
serde_json = "*"
sha256 = "*"
ulid = "*"
url = "*"
