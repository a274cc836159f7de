use chrono::Utc;
use crypto::digest::Digest;
use crypto::sha2::Sha256;
use num_bigint::BigUint;
use num_traits::One;
use vstd::arithmetic::power2::pow2;
use vstd::prelude::*;

verus! {

/// The SHA-256 digest of a byte sequence.
pub uninterp spec fn sha256_of(data: Seq<u8>) -> Seq<u8>;

/// The unsigned integer that `bytes` spell in big-endian order.
pub open spec fn be_value(bytes: Seq<u8>) -> nat
    decreases bytes.len(),
{
    if bytes.len() == 0 {
        0
    } else {
        be_value(bytes.drop_last()) * 256 + bytes.last() as nat
    }
}

/// Relies on rust-crypto's `sha2::Sha256` (`new`, then `Digest::input` and
/// `Digest::result` into a 32-byte buffer): the SHA-256 digest of `data`, which
/// depends on the bytes alone.
#[verifier::external_body]
pub(crate) fn sha256(data: &Vec<u8>) -> (r: [u8; 32])
    ensures
        r@ == sha256_of(data@),
{
    let mut hasher = Sha256::new();
    hasher.input(data.as_slice());
    let mut hash: [u8; 32] = [0; 32];
    hasher.result(&mut hash);
    hash
}

/// Relies on num-bigint's `BigUint::from_bytes_be` (reads `bytes` as a
/// big-endian unsigned integer), `One::one` shifted left by `bits` (two to the
/// power `bits`) and `BigUint`'s `<`, which is the order of the integers.
#[verifier::external_body]
pub(crate) fn be_below_pow2(bytes: &[u8], bits: usize) -> (r: bool)
    requires
        bits <= 256,
    ensures
        r == (be_value(bytes@) < pow2(bits as nat)),
{
    BigUint::from_bytes_be(bytes) < (BigUint::one() << bits)
}

/// Relies on chrono's `Utc::now` and `DateTime::timestamp`: the current time in
/// whole seconds since the Unix epoch. Nothing is promised about the value.
#[verifier::external_body]
pub(crate) fn now_seconds() -> (r: i64) {
    Utc::now().timestamp()
}

} // verus!
