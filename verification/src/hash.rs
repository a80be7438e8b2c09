//! Content digest used for job identities and output hashes.
//!
//! The pipeline needs a deterministic digest of byte sequences and small
//! integers: identical input must always yield an identical digest, so that a
//! job's identity and a result's output hash are reproducible from the inputs
//! alone. The digest is 64-bit FNV-1a, extended with a whole-word folding step
//! for lengths and numeric fields.

use vstd::prelude::*;

verus! {

/// FNV-1a 64-bit offset basis: the digest of the empty sequence.
pub const FNV_OFFSET: u64 = 0xcbf29ce484222325;

/// FNV-1a 64-bit prime.
pub const FNV_PRIME: u64 = 0x100000001b3;

/// One FNV-1a step: fold one byte into the running digest.
pub open spec fn fold_byte(h: u64, b: u8) -> u64 {
    (h ^ (b as u64)).wrapping_mul(FNV_PRIME)
}

/// Digest after folding the first `n` bytes of `s` into `h0`.
pub open spec fn digest_prefix(h0: u64, s: Seq<u8>, n: int) -> u64
    decreases n,
{
    if n <= 0 {
        h0
    } else {
        fold_byte(digest_prefix(h0, s, n - 1), s[n - 1])
    }
}

/// Digest after folding all of `s` into `h0`.
pub open spec fn digest_bytes(h0: u64, s: Seq<u8>) -> u64 {
    digest_prefix(h0, s, s.len() as int)
}

/// Fold a whole 64-bit word into the digest in one step.
pub open spec fn fold_word(h: u64, x: u64) -> u64 {
    (h ^ x).wrapping_mul(FNV_PRIME)
}

/// Fold every byte of `s` into the running digest `h0`.
pub fn extend_bytes(h0: u64, s: &Vec<u8>) -> (h: u64)
    ensures
        h == digest_bytes(h0, s@),
{
    let mut h = h0;
    let mut i: usize = 0;
    while i < s.len()
        invariant
            i <= s@.len(),
            h == digest_prefix(h0, s@, i as int),
        decreases s@.len() - i,
    {
        h = (h ^ (s[i] as u64)).wrapping_mul(FNV_PRIME);
        i = i + 1;
    }
    h
}

/// Fold a 64-bit word into the running digest.
pub fn extend_word(h: u64, x: u64) -> (r: u64)
    ensures
        r == fold_word(h, x),
{
    (h ^ x).wrapping_mul(FNV_PRIME)
}

/// Digest of a byte sequence alone, from the offset basis.
pub fn digest_of_bytes(s: &Vec<u8>) -> (h: u64)
    ensures
        h == digest_bytes(FNV_OFFSET, s@),
{
    extend_bytes(FNV_OFFSET, s)
}

} // verus!
