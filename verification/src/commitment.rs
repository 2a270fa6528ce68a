//! The cryptographic commitment of the commit-reveal protocol.
//!
//! A commitment binds a hidden value and a caller-chosen nonce: it is the
//! SHA-256 digest of the value's bytes followed by the nonce's 8-byte
//! big-endian encoding, rendered as 64 lowercase hexadecimal characters.
//! A reveal succeeds exactly when recomputing this digest over the supplied
//! value and nonce reproduces the stored commit string.

use vstd::prelude::*;

verus! {

/// The commitment digest of a value and a nonce: what [`hash_commitment`]
/// returns, determined by the value's characters and the nonce alone.
pub uninterp spec fn commit_digest(value: Seq<char>, nonce: u64) -> Seq<char>;

/// Relies on sha2::Sha256 (via the digest crate's `Digest` trait: `new`,
/// `update`, `finalize`) and hex::encode: the SHA-256 digest of the value's
/// bytes followed by the nonce's big-endian bytes is 32 bytes long, and
/// hex::encode renders each byte as two lowercase hex characters, so the
/// result has exactly 64 characters and depends on the value and the nonce
/// alone.
#[verifier::external_body]
pub fn hash_commitment(value: &str, nonce: u64) -> (r: String)
    ensures
        r@ == commit_digest(value@, nonce),
        r@.len() == 64,
{
    let mut hasher = <sha2::Sha256 as sha2::Digest>::new();
    sha2::Digest::update(&mut hasher, value.as_bytes());
    sha2::Digest::update(&mut hasher, nonce.to_be_bytes());
    hex::encode(sha2::Digest::finalize(hasher))
}

} // verus!
