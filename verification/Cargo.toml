[package]
name = "request_signer"
version = "0.1.0"
edition = "2021"
publish = false

[dependencies]
base64 = "*"
hmac = "*"
sha2 = "*"
serde_json = "*"
dotenv = "*"
reqwest = { version = "*", default-features = false }
tokio = { version = "*", features = ["macros", "rt-multi-thread"] }
