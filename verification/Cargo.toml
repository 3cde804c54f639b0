[package]
name = "moonlight_web"
version = "0.1.0"
edition = "2021"
publish = false

[dependencies]
sha1 = "=0.10.7"
sha2 = { version = "=0.10.9", features = ["oid"] }
aes = "=0.7.5"
block-modes = "=0.8.1"
roxmltree = "=0.20.0"
uuid = { version = "=1.29.0", features = ["v4"] }
form_urlencoded = "=1.2.2"
rand = "=0.9.5"
pem = "=3.0.6"
x509-parser = "=0.16.0"
rsa = "=0.9.10"
hex = "=0.4.3"
serde = { version = "1", features = ["derive"] }
serde_json = "1"
bincode = "2"
