//! End-to-end encrypted chat client with a post-quantum handshake.
//!
//! The client agrees on a transport key with the server (ML-KEM-1024, authenticated by an
//! ML-DSA-87 signature), wraps every server message in AES-256-GCM, and runs a second key
//! exchange with each room member (ML-KEM-1024 mixed with the room password through Argon2id)
//! whose traffic is sealed with XChaCha20-Poly1305.
pub mod client;
pub mod crypto_engine;
pub mod error;
pub mod laws;
pub mod peers;
pub mod primitives;
pub mod protocol;
pub mod wire;
