use tiny_keccak::{Hasher, Keccak};
use vstd::prelude::*;

verus! {

/// The first `len` output bytes of Keccak-256 (the original, pre-SHA-3
/// padding) on `input`.
pub uninterp spec fn keccak_of(input: Seq<u8>, len: nat) -> Seq<u8>;

/// Compute the Keccak-256 hash of `input` and write it to `dest`.
///
/// Relies on `tiny_keccak::Keccak::v256` with `Hasher::update` and
/// `Hasher::finalize`: the sponge absorbs `input` and squeezes exactly
/// `dest.len()` bytes into `dest`, whatever that length is.
#[verifier::external_body]
pub fn keccak256(input: &[u8], dest: &mut [u8])
    ensures
        final(dest)@.len() == old(dest)@.len(),
        final(dest)@ == keccak_of(input@, old(dest)@.len()),
{
    let mut hasher = Keccak::v256();
    hasher.update(input);
    hasher.finalize(dest);
}

/// Keccak-256 digest of a byte string, as the 32 bytes that every step of
/// the hash chain produces.
pub open spec fn hash(data: Seq<u8>) -> Seq<u8> {
    keccak_of(data, 32)
}

/// The 32-byte digest of `data`.
pub fn digest(data: &[u8]) -> (r: [u8; 32])
    ensures
        r@ == hash(data@),
{
    let mut out = [0u8; 32];
    keccak256(data, &mut out);
    out
}

} // verus!
