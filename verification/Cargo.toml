[package]
name = "hyper_connect"
version = "0.1.0"
edition = "2021"
publish = false

[dependencies]
aes = "0.8"
aes-gcm = "0.10"
base64 = "0.22"
chrono = "0.4"
ctr = "0.9"
hkdf = "0.12"
rand_core = { version = "0.6", features = ["getrandom"] }
serde = { version = "1", features = ["derive"] }
serde_json = "1"
sha2 = "0.10"
socket2 = "0.5"
tokio = { version = "1", features = ["net", "io-util", "time", "sync", "rt", "fs"] }
uuid = { version = "1", features = ["v4"] }
x25519-dalek = "2"
