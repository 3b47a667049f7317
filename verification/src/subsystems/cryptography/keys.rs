//! Symmetric ChaCha20-Poly1305 encryption of workspace data.

use vstd::prelude::*;
use chacha20poly1305::aead::{AeadCore, AeadInPlace, KeyInit, OsRng};
use chacha20poly1305::{ChaCha20Poly1305, Key, Nonce};

verus! {

/// The ciphertext (with its 16-byte tag appended) that ChaCha20-Poly1305
/// produces for a key, a nonce and a plaintext, with no associated data.
pub uninterp spec fn chacha_seal(key: Seq<u8>, nonce: Seq<u8>, plaintext: Seq<u8>) -> Seq<u8>;

/// The plaintext that ChaCha20-Poly1305 recovers from a ciphertext (tag
/// appended) under a key and a nonce, with no associated data; `None` when
/// the ciphertext does not authenticate.
pub uninterp spec fn chacha_open(key: Seq<u8>, nonce: Seq<u8>, ciphertext: Seq<u8>) -> Option<Seq<u8>>;

/// The error of the AEAD operations.
#[verifier::external_type_specification]
#[verifier::external_body]
pub struct ExAeadError(chacha20poly1305::aead::Error);

/// The largest plaintext length the cipher accepts, as its source checks it:
/// the number of 64-byte blocks must stay below `u32::MAX`.
pub open spec fn fits_cipher(len: int) -> bool {
    len / 64 < 0xFFFF_FFFF
}

/// Trusted: `ChaCha20Poly1305::encrypt_in_place` with empty associated data
/// on a copy of `plaintext`. It fails exactly when the plaintext has too
/// many blocks; otherwise the buffer holds the ciphertext followed by the
/// 16-byte tag, and decrypting it under the same key and nonce gives the
/// plaintext back (the AEAD correctness property).
#[verifier::external_body]
fn chacha_encrypt(key: &[u8; 32], nonce: &[u8; 12], plaintext: &[u8]) -> (r: Result<
    Vec<u8>,
    chacha20poly1305::aead::Error,
>)
    ensures
        r is Ok <==> fits_cipher(plaintext@.len() as int),
        r matches Ok(c) ==> {
            &&& c@ == chacha_seal(key@, nonce@, plaintext@)
            &&& c@.len() == plaintext@.len() + 16
            &&& chacha_open(key@, nonce@, c@) == Some(plaintext@)
        },
{
    let cipher = ChaCha20Poly1305::new(Key::from_slice(key));
    let mut buffer = plaintext.to_vec();
    cipher.encrypt_in_place(Nonce::from_slice(nonce), &[], &mut buffer).map(|_| buffer)
}

/// Trusted: `ChaCha20Poly1305::decrypt_in_place` with empty associated data
/// on a copy of `ciphertext`; it succeeds with the recovered plaintext or
/// fails when the ciphertext does not authenticate.
#[verifier::external_body]
fn chacha_decrypt(key: &[u8; 32], nonce: &[u8; 12], ciphertext: &[u8]) -> (r: Result<
    Vec<u8>,
    chacha20poly1305::aead::Error,
>)
    ensures
        match r {
            Ok(p) => chacha_open(key@, nonce@, ciphertext@) == Some(p@),
            Err(_) => chacha_open(key@, nonce@, ciphertext@) is None,
        },
{
    let cipher = ChaCha20Poly1305::new(Key::from_slice(key));
    let mut buffer = ciphertext.to_vec();
    cipher.decrypt_in_place(Nonce::from_slice(nonce), &[], &mut buffer).map(|_| buffer)
}

/// Trusted: `ChaCha20Poly1305::generate_nonce` from the operating system's
/// random source; nothing is promised of the 12 bytes.
#[verifier::external_body]
fn random_nonce() -> (r: [u8; 12]) {
    let nonce = ChaCha20Poly1305::generate_nonce(&mut OsRng);
    let mut out = [0u8; 12];
    out.copy_from_slice(nonce.as_slice());
    out
}

/// The error of a failed encryption or decryption.
pub struct CipherError {}

/// A ChaCha20-Poly1305 cipher with its key and the nonce it encrypts with.
pub struct SymmetricCipher {
    pub key: [u8; 32],
    pub nonce: [u8; 12],
}

/// What `encrypt` returns: the nonce followed by the sealed plaintext.
pub open spec fn encrypted_payload(key: Seq<u8>, nonce: Seq<u8>, plaintext: Seq<u8>) -> Seq<u8> {
    nonce + chacha_seal(key, nonce, plaintext)
}

impl SymmetricCipher {
    /// Builds a cipher for the key, with a fresh random nonce.
    pub fn new(key: &[u8; 32]) -> (r: Self)
        ensures
            r.key@ == key@,
    {
        SymmetricCipher { key: *key, nonce: random_nonce() }
    }

    /// Replaces the nonce with a fresh random one; the key is kept.
    pub fn update_nonce(&mut self)
        ensures
            final(self).key == old(self).key,
    {
        self.nonce = random_nonce();
    }

    /// Encrypts `plaintext` under the cipher's key and nonce and returns the
    /// nonce followed by the ciphertext and its tag.
    pub fn encrypt(&mut self, plaintext: &[u8]) -> (r: Result<Vec<u8>, CipherError>)
        ensures
            *final(self) == *old(self),
            r is Ok <==> fits_cipher(plaintext@.len() as int),
            r matches Ok(e) ==> {
                &&& e@ == encrypted_payload(old(self).key@, old(self).nonce@, plaintext@)
                &&& e@.len() == plaintext@.len() + 28
                &&& chacha_open(old(self).key@, old(self).nonce@, e@.skip(12)) == Some(plaintext@)
            },
    {
        match chacha_encrypt(&self.key, &self.nonce, plaintext) {
            Ok(sealed) => {
                let mut out: Vec<u8> = Vec::new();
                let mut i: usize = 0;
                while i < 12
                    invariant
                        0 <= i <= 12,
                        out@ == self.nonce@.take(i as int),
                    decreases 12 - i,
                {
                    out.push(self.nonce[i]);
                    i = i + 1;
                    assert(out@ =~= self.nonce@.take(i as int));
                }
                let mut j: usize = 0;
                let n = sealed.len();
                while j < n
                    invariant
                        0 <= j <= n,
                        n == sealed@.len(),
                        out@ == self.nonce@ + sealed@.take(j as int),
                    decreases n - j,
                {
                    out.push(sealed[j]);
                    j = j + 1;
                    assert(out@ =~= self.nonce@ + sealed@.take(j as int));
                }
                assert(sealed@.take(n as int) =~= sealed@);
                assert(out@.skip(12) =~= sealed@);
                Ok(out)
            },
            Err(_) => Err(CipherError {}),
        }
    }

    /// Decrypts a ciphertext (tag appended, nonce not included) with the
    /// cipher's own nonce.
    pub fn decrypt(&mut self, ciphertext: &[u8]) -> (r: Result<Vec<u8>, CipherError>)
        ensures
            *final(self) == *old(self),
            match r {
                Ok(p) => chacha_open(old(self).key@, old(self).nonce@, ciphertext@) == Some(p@),
                Err(_) => chacha_open(old(self).key@, old(self).nonce@, ciphertext@) is None,
            },
    {
        let nonce = self.nonce;
        self.decrypt_with_nonce(&nonce, ciphertext)
    }

    /// Decrypts a ciphertext (tag appended) with the given 12-byte nonce.
    pub fn decrypt_with_nonce(&mut self, nonce: &[u8], ciphertext: &[u8]) -> (r: Result<
        Vec<u8>,
        CipherError,
    >)
        requires
            nonce@.len() == 12,
        ensures
            *final(self) == *old(self),
            match r {
                Ok(p) => chacha_open(old(self).key@, nonce@, ciphertext@) == Some(p@),
                Err(_) => chacha_open(old(self).key@, nonce@, ciphertext@) is None,
            },
    {
        let mut fixed: [u8; 12] = [0u8; 12];
        let mut i: usize = 0;
        while i < 12
            invariant
                0 <= i <= 12,
                nonce@.len() == 12,
                forall|k: int| 0 <= k < i ==> fixed@[k] == nonce@[k],
            decreases 12 - i,
        {
            fixed[i] = nonce[i];
            i = i + 1;
        }
        assert(fixed@ =~= nonce@);
        match chacha_decrypt(&self.key, &fixed, ciphertext) {
            Ok(p) => Ok(p),
            Err(_) => Err(CipherError {}),
        }
    }
}

} // verus!
