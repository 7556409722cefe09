[package]
name = "glyphos"
version = "2.0.1"
edition = "2021"
publish = false

[dependencies]
bardecoder = "0.5"
base64 = "0.22"
blake3 = "1"
chrono = { version = "0.4", features = ["serde"] }
ciborium = "0.2"
clap = { version = "4", features = ["derive"] }
clap_complete = "4"
ed25519-dalek = "2"
hex = "0.4"
image = { version = "0.24", default-features = false, features = ["png", "jpeg", "gif", "bmp"] }
log = "0.4"
qrcode = { version = "0.14", default-features = false }
serde = { version = "1", features = ["derive"] }
serde_json = "1"
serde_json5 = "*"
serde_yaml = "0.9"
thiserror = "1"
uuid = { version = "1", features = ["v4"] }
