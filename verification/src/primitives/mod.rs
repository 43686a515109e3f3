//! The boundary to the cryptographic crates and to the standard library. Each executable function
//! here hands its arguments to an outside function and converts what comes back; its contract is
//! believed, and is what the rest of the crate relies on.
pub mod aead;
pub mod codec;
pub mod kdf;
pub mod kem;
pub mod signature;
pub mod system;
