//! Authenticated encryption: AES-256-GCM towards the server, XChaCha20-Poly1305 between peers.
use aes_gcm::aead::{Aead, KeyInit};
use vstd::prelude::*;

verus! {

/// Bytes that either cipher appends to a plaintext.
pub const TAG_LEN: usize = 16;

/// Longest plaintext, in bytes, that AES-256-GCM seals.
pub const AES_GCM_PLAINTEXT_MAX: u64 = 68719476736;

/// Longest plaintext, in bytes, that XChaCha20-Poly1305 is given: as many blocks of 64 bytes as
/// its 32-bit block counter has room for after the block that keys the tag.
pub const XCHACHA_PLAINTEXT_MAX: u64 = 274877906816;

/// What AES-256-GCM makes of `plaintext` under `key` and `nonce`, without associated data:
/// the encrypted bytes followed by the tag.
pub uninterp spec fn aes256gcm_seal(key: Seq<u8>, nonce: Seq<u8>, plaintext: Seq<u8>) -> Seq<u8>;

/// What AES-256-GCM recovers from `ciphertext` under `key` and `nonce`, without associated
/// data: `None` where the tag does not verify.
pub uninterp spec fn aes256gcm_open(key: Seq<u8>, nonce: Seq<u8>, ciphertext: Seq<u8>) -> Option<
    Seq<u8>,
>;

/// What XChaCha20-Poly1305 makes of `plaintext` under `key` and `nonce`, without associated
/// data: the encrypted bytes followed by the tag.
pub uninterp spec fn xchacha20poly1305_seal(
    key: Seq<u8>,
    nonce: Seq<u8>,
    plaintext: Seq<u8>,
) -> Seq<u8>;

/// What XChaCha20-Poly1305 recovers from `ciphertext` under `key` and `nonce`, without
/// associated data: `None` where the tag does not verify.
pub uninterp spec fn xchacha20poly1305_open(
    key: Seq<u8>,
    nonce: Seq<u8>,
    ciphertext: Seq<u8>,
) -> Option<Seq<u8>>;

/// Calls `aes_gcm::Aes256Gcm::encrypt`.
///
/// Claimed: it succeeds exactly on plaintexts of at most `AES_GCM_PLAINTEXT_MAX` bytes, the
/// result is determined by key, nonce and plaintext, it is one tag longer than the plaintext,
/// and decrypting it under the same key and nonce gives the plaintext back.
#[verifier::external_body]
pub(crate) fn aes256gcm_encrypt(key: &[u8; 32], nonce: &[u8; 12], plaintext: &[u8]) -> (res: Option<
    Vec<u8>,
>)
    ensures
        res is Some <==> plaintext@.len() <= AES_GCM_PLAINTEXT_MAX,
        res matches Some(ciphertext) ==> {
            &&& ciphertext@ == aes256gcm_seal(key@, nonce@, plaintext@)
            &&& ciphertext@.len() == plaintext@.len() + TAG_LEN
            &&& aes256gcm_open(key@, nonce@, ciphertext@) == Some(plaintext@)
        },
{
    let cipher = aes_gcm::Aes256Gcm::new(aes_gcm::Key::<aes_gcm::Aes256Gcm>::from_slice(key));
    cipher.encrypt(aes_gcm::Nonce::from_slice(nonce), plaintext).ok()
}

/// Calls `aes_gcm::Aes256Gcm::decrypt`.
///
/// Claimed: the outcome is determined by key, nonce and ciphertext, and a recovered plaintext
/// is one tag shorter than the ciphertext.
#[verifier::external_body]
pub(crate) fn aes256gcm_decrypt(
    key: &[u8; 32],
    nonce: &[u8; 12],
    ciphertext: &[u8],
) -> (res: Option<Vec<u8>>)
    ensures
        match res {
            Some(plaintext) => {
                &&& aes256gcm_open(key@, nonce@, ciphertext@) == Some(plaintext@)
                &&& ciphertext@.len() == plaintext@.len() + TAG_LEN
            },
            None => aes256gcm_open(key@, nonce@, ciphertext@) is None,
        },
{
    let cipher = aes_gcm::Aes256Gcm::new(aes_gcm::Key::<aes_gcm::Aes256Gcm>::from_slice(key));
    cipher.decrypt(aes_gcm::Nonce::from_slice(nonce), ciphertext).ok()
}

/// Calls `chacha20poly1305::XChaCha20Poly1305::encrypt`.
///
/// Claimed: on plaintexts of at most `XCHACHA_PLAINTEXT_MAX` bytes it succeeds, the result is
/// determined by key, nonce and plaintext, it is one tag longer than the plaintext, and
/// decrypting it under the same key and nonce gives the plaintext back. Longer plaintexts, which
/// the cipher's block counter has no room for, are kept from it.
#[verifier::external_body]
pub(crate) fn xchacha20poly1305_encrypt(
    key: &[u8; 32],
    nonce: &[u8; 24],
    plaintext: &[u8],
) -> (res: Option<Vec<u8>>)
    requires
        plaintext@.len() <= XCHACHA_PLAINTEXT_MAX,
    ensures
        res is Some,
        res matches Some(ciphertext) ==> {
            &&& ciphertext@ == xchacha20poly1305_seal(key@, nonce@, plaintext@)
            &&& ciphertext@.len() == plaintext@.len() + TAG_LEN
            &&& xchacha20poly1305_open(key@, nonce@, ciphertext@) == Some(plaintext@)
        },
{
    let key = chacha20poly1305::Key::from_slice(key);
    let cipher = chacha20poly1305::XChaCha20Poly1305::new(key);
    cipher.encrypt(chacha20poly1305::XNonce::from_slice(nonce), plaintext).ok()
}

/// Calls `chacha20poly1305::XChaCha20Poly1305::decrypt`.
///
/// Claimed: the outcome is determined by key, nonce and ciphertext, and a recovered plaintext
/// is one tag shorter than the ciphertext. Longer ciphertexts, which the cipher's block counter
/// has no room for, are kept from it.
#[verifier::external_body]
pub(crate) fn xchacha20poly1305_decrypt(
    key: &[u8; 32],
    nonce: &[u8; 24],
    ciphertext: &[u8],
) -> (res: Option<Vec<u8>>)
    requires
        ciphertext@.len() <= XCHACHA_PLAINTEXT_MAX + TAG_LEN,
    ensures
        match res {
            Some(plaintext) => {
                &&& xchacha20poly1305_open(key@, nonce@, ciphertext@) == Some(plaintext@)
                &&& ciphertext@.len() == plaintext@.len() + TAG_LEN
            },
            None => xchacha20poly1305_open(key@, nonce@, ciphertext@) is None,
        },
{
    let key = chacha20poly1305::Key::from_slice(key);
    let cipher = chacha20poly1305::XChaCha20Poly1305::new(key);
    cipher.decrypt(chacha20poly1305::XNonce::from_slice(nonce), ciphertext).ok()
}

} // verus!
