//! ML-KEM-1024, the key encapsulation behind both key exchanges.
use ml_kem::{Decapsulate, Encapsulate, Kem, KeyExport, KeyInit, TryKeyInit};
use vstd::prelude::*;

verus! {

/// Length in bytes of a decapsulation key in its seed form.
pub const SEED_LEN: usize = 64;

/// Length in bytes of an encapsulation key.
pub const ENCAPSULATION_KEY_LEN: usize = 1568;

/// Length in bytes of a ciphertext.
pub const CIPHERTEXT_LEN: usize = 1568;

/// Length in bytes of a shared secret.
pub const SHARED_SECRET_LEN: usize = 32;

/// Which of its two arguments a decapsulation refused.
pub enum DecapsulationFailure {
    SecretKey,
    Ciphertext,
}

/// The encapsulation key that belongs to the decapsulation key expanded from `seed`.
pub uninterp spec fn ml_kem_1024_encapsulation_key(seed: Seq<u8>) -> Seq<u8>;

/// The ciphertext and the shared secret that encapsulation under `key` yields where the
/// 32 bytes `message` were drawn.
pub uninterp spec fn ml_kem_1024_encapsulation(key: Seq<u8>, message: Seq<u8>) -> (
    Seq<u8>,
    Seq<u8>,
);

/// The shared secret that the decapsulation key expanded from `seed` finds in `ciphertext`.
pub uninterp spec fn ml_kem_1024_decapsulation(seed: Seq<u8>, ciphertext: Seq<u8>) -> Seq<u8>;

/// The `i`-th of the 12-bit numbers that are packed, two to every three bytes, at the front of
/// an encapsulation key.
pub open spec fn packed_coefficient(key: Seq<u8>, i: int) -> int {
    let triple = 3 * (i / 2);
    if i % 2 == 0 {
        key[triple] + 256 * (key[triple + 1] % 16)
    } else {
        key[triple + 1] / 16 + 16 * key[triple + 2]
    }
}

/// Whether `key` has the form of an encapsulation key: the right length, and each of its 1024
/// packed coefficients below the modulus 3329.
pub open spec fn is_encapsulation_key(key: Seq<u8>) -> bool {
    &&& key.len() == ENCAPSULATION_KEY_LEN
    &&& forall|i: int| 0 <= i < 1024 ==> #[trigger] packed_coefficient(key, i) < 3329
}

/// Whether encapsulation under `key` can yield this ciphertext together with this secret.
pub open spec fn is_encapsulation(key: Seq<u8>, ciphertext: Seq<u8>, secret: Seq<u8>) -> bool {
    &&& ciphertext.len() == CIPHERTEXT_LEN
    &&& secret.len() == SHARED_SECRET_LEN
    &&& exists|message: Seq<u8>|
        message.len() == 32 && (ciphertext, secret) == #[trigger] ml_kem_1024_encapsulation(
            key,
            message,
        )
}

/// Calls `ml_kem::MlKem1024::generate_keypair` and exports both keys.
///
/// Claimed, whatever the operating system's randomness was: the first result is the decapsulation key in its seed form, the
/// second is the encapsulation key that belongs to it, and it is well formed.
#[verifier::external_body]
pub(crate) fn ml_kem_1024_generate() -> (keys: (Vec<u8>, Vec<u8>))
    ensures
        keys.0@.len() == SEED_LEN,
        keys.1@ == ml_kem_1024_encapsulation_key(keys.0@),
        is_encapsulation_key(keys.1@),
{
    let (secret, public) = ml_kem::MlKem1024::generate_keypair();
    (secret.to_bytes().to_vec(), public.to_bytes().to_vec())
}

/// Calls `ml_kem::EncapsulationKey1024::new_from_slice`, then `encapsulate`.
///
/// Claimed: the key is accepted exactly when it is well formed, and the result is then one that
/// encapsulation under it can yield.
#[verifier::external_body]
pub(crate) fn ml_kem_1024_encapsulate(key: &[u8]) -> (res: Option<(Vec<u8>, Vec<u8>)>)
    ensures
        res is Some <==> is_encapsulation_key(key@),
        res matches Some(pair) ==> {
            &&& pair.0@.len() == CIPHERTEXT_LEN
            &&& pair.1@.len() == SHARED_SECRET_LEN
            &&& exists|message: Seq<u8>|
                message.len() == 32 && (pair.0@, pair.1@) == #[trigger] ml_kem_1024_encapsulation(
                    key@,
                    message,
                )
        },
{
    let key = ml_kem::EncapsulationKey1024::new_from_slice(key).ok()?;
    let (ciphertext, secret) = key.encapsulate();
    Some((ciphertext.to_vec(), secret.to_vec()))
}

/// Calls `ml_kem::DecapsulationKey1024::new_from_slice`, then `decapsulate_slice`.
///
/// Claimed: the key is refused exactly when it has the wrong length, the ciphertext is refused
/// exactly when the key is accepted and the ciphertext has the wrong length, and otherwise the
/// shared secret is determined by both. That it equals the secret of the encapsulation that
/// made the ciphertext is left out: ML-KEM admits decryption failures, though with negligible
/// probability.
#[verifier::external_body]
pub(crate) fn ml_kem_1024_decapsulate(seed: &[u8], ciphertext: &[u8]) -> (res: Result<
    Vec<u8>,
    DecapsulationFailure,
>)
    ensures
        match res {
            Ok(secret) => {
                &&& seed@.len() == SEED_LEN
                &&& ciphertext@.len() == CIPHERTEXT_LEN
                &&& secret@ == ml_kem_1024_decapsulation(seed@, ciphertext@)
                &&& secret@.len() == SHARED_SECRET_LEN
            },
            Err(DecapsulationFailure::SecretKey) => seed@.len() != SEED_LEN,
            Err(DecapsulationFailure::Ciphertext) => {
                &&& seed@.len() == SEED_LEN
                &&& ciphertext@.len() != CIPHERTEXT_LEN
            },
        },
{
    let Ok(key) = ml_kem::DecapsulationKey1024::new_from_slice(seed) else {
        return Err(DecapsulationFailure::SecretKey);
    };
    match key.decapsulate_slice(ciphertext) {
        Ok(secret) => Ok(secret.to_vec()),
        Err(_) => Err(DecapsulationFailure::Ciphertext),
    }
}

} // verus!
