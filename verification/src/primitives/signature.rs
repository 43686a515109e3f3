//! ML-DSA-87, the signature with which the server vouches for its key exchange.
use ml_dsa::{KeyInit, Verifier};
use vstd::prelude::*;

verus! {

/// Length in bytes of a verifying key.
pub const VERIFYING_KEY_LEN: usize = 2592;

/// Length in bytes of a signature.
pub const SIGNATURE_LEN: usize = 4627;

/// Whether `signature` decodes and verifies over `message` under the verifying key `key`.
pub uninterp spec fn ml_dsa_87_verifies(
    key: Seq<u8>,
    message: Seq<u8>,
    signature: Seq<u8>,
) -> bool;

/// Calls `ml_dsa::VerifyingKey::<MlDsa87>::new_from_slice`.
///
/// Claimed: the bytes are accepted exactly when there are `VERIFYING_KEY_LEN` of them; every
/// such string decodes.
#[verifier::external_body]
pub(crate) fn ml_dsa_87_accepts_key(key: &[u8]) -> (res: bool)
    ensures
        res == (key@.len() == VERIFYING_KEY_LEN),
{
    ml_dsa::VerifyingKey::<ml_dsa::MlDsa87>::new_from_slice(key).is_ok()
}

/// Calls `ml_dsa::VerifyingKey::<MlDsa87>::new_from_slice`, `ml_dsa::Signature::try_from` and
/// `verify`.
///
/// Claimed: the outcome is determined by key, message and signature, and it is positive only
/// where key and signature have the right lengths.
#[verifier::external_body]
pub(crate) fn ml_dsa_87_verify(key: &[u8], message: &[u8], signature: &[u8]) -> (res: bool)
    ensures
        res == ml_dsa_87_verifies(key@, message@, signature@),
        res ==> key@.len() == VERIFYING_KEY_LEN && signature@.len() == SIGNATURE_LEN,
{
    let Ok(key) = ml_dsa::VerifyingKey::<ml_dsa::MlDsa87>::new_from_slice(key) else {
        return false;
    };
    let Ok(signature) = ml_dsa::Signature::<ml_dsa::MlDsa87>::try_from(signature) else {
        return false;
    };
    key.verify(message, &signature).is_ok()
}

} // verus!
