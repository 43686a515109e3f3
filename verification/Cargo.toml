[package]
name = "pqc_chat"
version = "0.1.0"
edition = "2021"
publish = false

[dependencies]
aes-gcm = "=0.10.3"
argon2 = "=0.5.3"
bincode = "=1.3.3"
chacha20poly1305 = "=0.10.1"
hkdf = "=0.12.4"
hmac = "=0.12.1"
ml-dsa = { version = "=0.1.2", features = ["getrandom"] }
ml-kem = { version = "=0.3.4", features = ["getrandom"] }
rand = "=0.8.8"
serde = { version = "=1.0.229", features = ["derive"] }
serde_bytes = "=0.11.19"
sha2 = "=0.10.9"
subtle = "=2.6.1"
zeroize = "=1.9.1"
