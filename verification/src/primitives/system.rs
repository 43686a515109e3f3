//! Randomness, time, and the handling of secrets in memory.
use rand::RngCore;
use subtle::ConstantTimeEq;
use vstd::prelude::*;
use zeroize::Zeroize;

verus! {

/// Whether these can be bytes that the operating system drew. It can draw any, but that is known
/// in this module alone: everywhere else, the one way to bytes of which this holds is to draw them.
pub closed spec fn is_random_draw(bytes: Seq<u8>) -> bool {
    bytes.len() >= 0
}

/// Calls `rand::rngs::OsRng.fill_bytes` for a fresh array. Of the bytes, which are the operating
/// system's to choose, nothing is claimed but that they were drawn.
#[verifier::external_body]
pub(crate) fn random_bytes<const N: usize>() -> (bytes: [u8; N])
    ensures
        is_random_draw(bytes@),
{
    let mut bytes = [0u8; N];
    rand::rngs::OsRng.fill_bytes(&mut bytes);
    bytes
}

/// How Rust's debug formatting renders a string: in double quotes, with escapes.
pub uninterp spec fn quoted(text: Seq<char>) -> Seq<char>;

/// Calls `<str as std::fmt::Debug>::fmt` through `format!`.
///
/// Claimed: the rendering is determined by the string.
#[verifier::external_body]
pub(crate) fn quote(text: &str) -> (res: String)
    ensures
        res@ == quoted(text@),
{
    format!("{:?}", text)
}

/// Whether this can be what the clock shows. A clock can show anything, but that is known in this
/// module alone: everywhere else, the one way to a value of which this holds is to read the clock.
pub closed spec fn is_clock_reading(seconds: Option<u64>) -> bool {
    seconds is Some || seconds is None
}

/// Calls `std::time::SystemTime::elapsed` on `std::time::UNIX_EPOCH`: the whole seconds since
/// then, or nothing where the clock stands before it. Of the number nothing is claimed but that it
/// is a reading of the clock.
#[verifier::external_body]
pub(crate) fn unix_seconds() -> (seconds: Option<u64>)
    ensures
        is_clock_reading(seconds),
{
    std::time::UNIX_EPOCH.elapsed().ok().map(|elapsed| elapsed.as_secs())
}

/// Calls `subtle::ConstantTimeEq::ct_eq` on two slices.
///
/// Claimed: the slices are equal exactly when they hold the same bytes.
#[verifier::external_body]
pub(crate) fn constant_time_eq(left: &[u8], right: &[u8]) -> (res: bool)
    ensures
        res == (left@ == right@),
{
    bool::from(left.ct_eq(right))
}

/// Calls `zeroize::Zeroize::zeroize` on a vector.
///
/// Claimed: the vector is empty afterwards. That its former bytes were overwritten first is
/// beyond what a contract can say.
#[verifier::external_body]
pub(crate) fn wipe_vec(bytes: &mut Vec<u8>)
    ensures
        final(bytes)@.len() == 0,
{
    bytes.zeroize();
}

/// Calls `zeroize::Zeroize::zeroize` on an array.
///
/// Claimed: every byte is zero afterwards.
#[verifier::external_body]
pub(crate) fn wipe_array(bytes: &mut [u8; 32])
    ensures
        final(bytes)@ == Seq::new(32, |i: int| 0u8),
{
    bytes.zeroize();
}

} // verus!
