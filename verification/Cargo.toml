[package]
name = "oauth2"
version = "0.1.0"
edition = "2021"
publish = false

[dependencies]
anyhow = "1"
axum = "*"
base64-url = "*"
base64ct = "*"
bon = "*"
chrono = { version = "0.4", features = ["serde"] }
clap = { version = "4", features = ["derive"] }
ecdsa = "*"
p256 = { version = "*", features = ["ecdsa", "pem"] }
rand = "*"
reqwest = { version = "*", features = ["json", "form"] }
serde = { version = "1", features = ["derive"] }
serde_json = "1"
sha2 = "*"
tokio = { version = "1", features = ["full"] }
zeroize = "*"
