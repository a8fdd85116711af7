[package]
name = "airoi"
version = "0.1.0"
edition = "2021"
publish = false

[dependencies]
anyhow = "*"
argon2 = "*"
base64 = "*"
bs58 = "*"
chacha20poly1305 = "*"
chrono = "*"
clap = { version = "*", features = ["derive"] }
curve25519-dalek = "*"
dirs = "*"
ed25519-dalek = "*"
inquire = "*"
keyring = "*"
rand = "*"
rpassword = "*"
serde = { version = "*", features = ["derive"] }
serde_json = "*"
sha2 = "*"
snow = "*"
tokio = { version = "*", features = ["full"] }
tokio-socks = "*"
x25519-dalek = "*"
zeroize = "*"
