[package]
name = "euterpe_server"
version = "0.1.0"
edition = "2021"
publish = false

[dependencies]
base64 = "=0.22.1"
hex = "=0.4.3"
xxhash-rust = { version = "=0.8.19", features = ["xxh64"] }
aes-gcm = "=0.10.3"
url = "=2.5.8"
lofty = "=0.25.5"
serde = { version = "=1.0.229", features = ["derive"] }
serde_json = "=1.0.154"
chrono = "=0.4.45"
image = { version = "=0.25.10", default-features = false, features = ["png", "jpeg"] }
dotenvy = "0.15"
