//! Key derivation and message authentication: HKDF-SHA-512, Argon2id, HMAC-SHA-256.
use hmac::Mac;
use vstd::prelude::*;

verus! {

/// Length in bytes of every derived key and of every authentication code.
pub const DIGEST_LEN: usize = 32;

/// The first 32 bytes of HKDF-SHA-512 output for the input keying material `secret` under
/// `salt` and `info`.
pub uninterp spec fn hkdf_sha512(salt: Option<Seq<u8>>, secret: Seq<u8>, info: Seq<u8>) -> Seq<u8>;

/// The 32-byte Argon2id (version 19, 19456 KiB, 2 passes, 1 lane) hash of `password` under
/// `salt`.
pub uninterp spec fn argon2id(password: Seq<u8>, salt: Seq<u8>) -> Seq<u8>;

/// The HMAC-SHA-256 code of `message` under `key`.
pub uninterp spec fn hmac_sha256(key: Seq<u8>, message: Seq<u8>) -> Seq<u8>;

/// Whether Argon2id takes this password and this salt: both lengths fit 32 bits, and the salt
/// has at least eight bytes.
pub open spec fn argon2id_accepts(password: Seq<u8>, salt: Seq<u8>) -> bool {
    &&& password.len() <= u32::MAX
    &&& 8 <= salt.len() <= u32::MAX
}

/// The bytes behind an optional slice.
pub open spec fn optional_bytes(bytes: Option<&[u8]>) -> Option<Seq<u8>> {
    match bytes {
        Some(slice) => Some(slice@),
        None => None,
    }
}

/// Calls `hkdf::Hkdf::<Sha512>::new`, then `expand`.
///
/// Claimed: 32 bytes are always within what `expand` yields, and they are determined by salt,
/// secret and info.
#[verifier::external_body]
pub(crate) fn hkdf_sha512_expand(salt: Option<&[u8]>, secret: &[u8], info: &[u8]) -> (res: Option<
    [u8; 32],
>)
    ensures
        res is Some,
        res matches Some(key) ==> key@ == hkdf_sha512(optional_bytes(salt), secret@, info@),
{
    let mut key = [0u8; 32];
    hkdf::Hkdf::<sha2::Sha512>::new(salt, secret).expand(info, &mut key).ok()?;
    Some(key)
}

/// Calls `argon2::Argon2::default().hash_password_into`.
///
/// Claimed: it succeeds exactly on the passwords and salts that `argon2id_accepts` describes,
/// and the hash is determined by both.
#[verifier::external_body]
pub(crate) fn argon2id_hash(password: &[u8], salt: &[u8]) -> (res: Option<[u8; 32]>)
    ensures
        res is Some <==> argon2id_accepts(password@, salt@),
        res matches Some(hash) ==> hash@ == argon2id(password@, salt@),
{
    let mut hash = [0u8; 32];
    argon2::Argon2::default().hash_password_into(password, salt, &mut hash).ok()?;
    Some(hash)
}

/// Calls `hmac::Hmac::<Sha256>::new_from_slice`, `update` once for each of the four parts, and
/// `finalize`.
///
/// Claimed: every key is accepted, and the code has 32 bytes and is that of the four parts
/// one after the other.
#[verifier::external_body]
pub(crate) fn hmac_sha256_of_parts(
    key: &[u8; 32],
    first: &[u8],
    second: &[u8],
    third: &[u8],
    fourth: &[u8],
) -> (res: Option<Vec<u8>>)
    ensures
        res is Some,
        res matches Some(code) ==> {
            &&& code@ == hmac_sha256(key@, first@ + second@ + third@ + fourth@)
            &&& code@.len() == DIGEST_LEN
        },
{
    let mut mac = hmac::Hmac::<sha2::Sha256>::new_from_slice(key).ok()?;
    mac.update(first);
    mac.update(second);
    mac.update(third);
    mac.update(fourth);
    Some(mac.finalize().into_bytes().to_vec())
}

} // verus!
