//! Hexadecimal SHA-256 and SHA-512 digests of text.

use vstd::prelude::*;
use sha2::{Digest, Sha256};
use crate::utils::cryptography::hashing::{sha512_bytes, sha512_digest};
use crate::utils::text::{hex_lower, to_hex_lower};

verus! {

/// The SHA-256 digest of a byte sequence.
pub uninterp spec fn sha256_digest(data: Seq<u8>) -> Seq<u8>;

/// Trusted: `sha2::Sha256::digest`. The result is the SHA-256 digest of the
/// input, which is 32 bytes long.
#[verifier::external_body]
fn sha256_bytes(data: &[u8]) -> (r: Vec<u8>)
    ensures
        r@ == sha256_digest(data@),
        r@.len() == 32,
{
    Sha256::digest(data).to_vec()
}

/// Hashes a string using SHA-256 and returns the digest as lower-case hex.
pub fn sha256(input: &str) -> (r: String)
    ensures
        r@ == hex_lower(sha256_digest(vstd::utf8::encode_utf8(input@))),
        r@.len() == 64,
{
    to_hex_lower(sha256_bytes(input.as_bytes()).as_slice())
}

/// Hashes a string using SHA-512 and returns the digest as lower-case hex.
pub fn sha512(input: &str) -> (r: String)
    ensures
        r@ == hex_lower(sha512_digest(vstd::utf8::encode_utf8(input@))),
        r@.len() == 128,
{
    to_hex_lower(sha512_bytes(input.as_bytes()).as_slice())
}

} // verus!
