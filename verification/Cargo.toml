[package]
name = "wacloudapi"
version = "0.1.0"
edition = "2021"
publish = false

[dependencies]
hmac-sha256 = "*"
serde_json = "*"
serde = { version = "*", features = ["derive"] }
thiserror = "*"
url = "*"
base64 = "*"
mime_guess = "*"
tokio = { version = "*", features = ["fs"] }
reqwest = { version = "*", default-features = false, features = ["json", "multipart"] }
