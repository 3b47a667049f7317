//! Hashing of text into stable hexadecimal identifiers.

use vstd::prelude::*;
use sha2::{Digest, Sha512};
use crate::utils::text::{hex_lower, to_hex_lower};

verus! {

/// The SHA-512 digest of a byte sequence.
pub uninterp spec fn sha512_digest(data: Seq<u8>) -> Seq<u8>;

/// Trusted: `sha2::Sha512::digest`. The result is the SHA-512 digest of the
/// input, which is 64 bytes long.
#[verifier::external_body]
pub(crate) fn sha512_bytes(data: &[u8]) -> (r: Vec<u8>)
    ensures
        r@ == sha512_digest(data@),
        r@.len() == 64,
{
    Sha512::digest(data).to_vec()
}

/// The identifier `hash_str` gives to a text: the lower-case hexadecimal
/// SHA-512 digest of its UTF-8 bytes.
pub open spec fn spec_hash_str(text: Seq<char>) -> Seq<char> {
    hex_lower(sha512_digest(vstd::utf8::encode_utf8(text)))
}

/// Hashes a string with SHA-512 and renders the digest as lower-case hex.
pub fn hash_str(text: &str) -> (r: String)
    ensures
        r@ == spec_hash_str(text@),
        r@.len() == 128,
{
    let digest = sha512_bytes(text.as_bytes());
    to_hex_lower(digest.as_slice())
}

} // verus!
