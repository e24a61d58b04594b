[package]
name = "wechat_pay_rust_sdk"
version = "0.1.0"
edition = "2021"
publish = false

[dependencies]
base64 = "*"
hex = "*"
rand = "*"
reqwest = { version = "*", features = ["json", "multipart"] }
rsa = { version = "0.9", features = ["sha2"] }
serde = { version = "*", features = ["derive"] }
serde_json = "*"
