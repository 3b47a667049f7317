//! Hierarchical derivation of secp256k1 keys from a seed.
//!
//! A master extended key is derived from a seed by PBKDF2 and HMAC-SHA-512;
//! child keys are derived from a parent by HMAC-SHA-512 over the parent's
//! chain code, as in BIP-32.

use vstd::prelude::*;
use hmac::{Hmac, Mac};
use pbkdf2::pbkdf2;
use secp256k1::{PublicKey, Scalar, Secp256k1, SecretKey};
use sha2::Sha512;
use zeroize::Zeroize;

verus! {

/// Indices at or above this value select hardened derivation.
pub const HARDENED_OFFSET: u32 = 0x80000000;

/// The number of PBKDF2 rounds used to stretch a seed.
pub const PBKDF2_ITERATIONS: u32 = 310_000;

/// The unsigned integer that a byte sequence spells, most significant byte
/// first.
pub open spec fn be_value(s: Seq<u8>) -> nat
    decreases s.len(),
{
    if s.len() == 0 {
        0
    } else {
        be_value(s.drop_last()) * 256 + s.last() as nat
    }
}

/// The order of the secp256k1 group.
pub open spec fn curve_order() -> nat {
    0xFFFFFFFFFFFFFFFFFFFFFFFFFFFFFFFEBAAEDCE6AF48A03BBFD25E8CD0364141nat
}

/// A valid secret key: 32 bytes spelling a number in `1 .. curve_order()`.
pub open spec fn valid_secret_key(s: Seq<u8>) -> bool {
    s.len() == 32 && 0 < be_value(s) && be_value(s) < curve_order()
}

/// A valid tweak (scalar): 32 bytes spelling a number below the curve order.
pub open spec fn valid_tweak(s: Seq<u8>) -> bool {
    s.len() == 32 && be_value(s) < curve_order()
}

/// The 64-byte HMAC-SHA-512 of `data` under `key`.
pub uninterp spec fn hmac_sha512(key: Seq<u8>, data: Seq<u8>) -> Seq<u8>;

/// The 64 bytes that PBKDF2 with HMAC-SHA-512 derives from a password, a
/// salt and a number of rounds.
pub uninterp spec fn pbkdf2_hmac_sha512(password: Seq<u8>, salt: Seq<u8>, rounds: u32) -> Seq<u8>;

/// The compressed (33-byte) serialization of the public key of a secret key.
pub uninterp spec fn secp_public_key(secret: Seq<u8>) -> Seq<u8>;

/// The compressed serialization of `public + tweak * G`, for a compressed
/// public key and a tweak; `None` when the key does not parse or the result
/// is the point at infinity.
pub uninterp spec fn secp_add_exp_tweak(public: Seq<u8>, tweak: Seq<u8>) -> Option<Seq<u8>>;

/// The error of a MAC key of unsupported length.
#[verifier::external_type_specification]
#[verifier::external_body]
pub struct ExInvalidLength(hmac::digest::InvalidLength);

/// Trusted: `Hmac::<Sha512>::new_from_slice`, `update` and `finalize`. The
/// source of `hmac` accepts keys of any length, so initialization never
/// fails; the result is the 64-byte MAC of `data`.
#[verifier::external_body]
fn hmac_sha512_bytes(key: &[u8], data: &[u8]) -> (r: Result<Vec<u8>, hmac::digest::InvalidLength>)
    ensures
        r is Ok,
        r matches Ok(m) ==> m@ == hmac_sha512(key@, data@) && m@.len() == 64,
{
    let mut mac = <Hmac<Sha512> as Mac>::new_from_slice(key)?;
    mac.update(data);
    Ok(mac.finalize().into_bytes().to_vec())
}

/// Trusted: `pbkdf2::pbkdf2::<Hmac<Sha512>>` into a 64-byte buffer. With HMAC
/// as the PRF it never fails (the crate's own comment and source say so).
#[verifier::external_body]
fn pbkdf2_fill(password: &[u8], salt: &[u8], rounds: u32, out: &mut [u8; 64]) -> (r: Result<
    (),
    hmac::digest::InvalidLength,
>)
    ensures
        r is Ok,
        final(out)@ == pbkdf2_hmac_sha512(password@, salt@, rounds),
{
    pbkdf2::<Hmac<Sha512>>(password, salt, rounds, out)
}

/// Trusted: `Zeroize::zeroize` on a 32-byte array: every byte becomes 0.
#[verifier::external_body]
fn zeroize_bytes(bytes: &mut [u8; 32])
    ensures
        final(bytes)@ == Seq::new(32, |i: int| 0u8),
{
    bytes.zeroize();
}

/// Trusted: `SecretKey::from_slice` succeeds exactly on 32 bytes spelling a
/// number that is not 0 and below the curve order (libsecp256k1's
/// `ec_seckey_verify`).
#[verifier::external_body]
#[allow(deprecated)]
fn secret_key_valid(bytes: &[u8]) -> (r: bool)
    ensures
        r == valid_secret_key(bytes@),
{
    SecretKey::from_slice(bytes).is_ok()
}

/// Trusted: `Scalar::from_be_bytes` succeeds exactly on values below the
/// curve order.
#[verifier::external_body]
fn scalar_in_range(bytes: &[u8; 32]) -> (r: bool)
    ensures
        r == valid_tweak(bytes@),
{
    Scalar::from_be_bytes(*bytes).is_ok()
}

/// Trusted: `SecretKey::add_tweak` adds the tweak modulo the curve order and
/// fails only when the sum is 0; `secret_bytes` gives the result's 32
/// big-endian bytes.
#[verifier::external_body]
fn secret_key_add_tweak(secret: &[u8; 32], tweak: &[u8; 32]) -> (r: Option<[u8; 32]>)
    requires
        valid_secret_key(secret@),
        valid_tweak(tweak@),
    ensures
        match r {
            Some(k) => {
                &&& (be_value(secret@) + be_value(tweak@)) % curve_order() != 0
                &&& be_value(k@) == (be_value(secret@) + be_value(tweak@)) % curve_order()
            },
            None => (be_value(secret@) + be_value(tweak@)) % curve_order() == 0,
        },
{
    let sk = SecretKey::from_byte_array(secret).unwrap();
    let t = Scalar::from_be_bytes(*tweak).unwrap();
    match sk.add_tweak(&t) {
        Ok(k) => Some(k.secret_bytes()),
        Err(_) => None,
    }
}

/// Trusted: `PublicKey::from_secret_key` and `serialize`: the compressed
/// public key of a valid secret key.
#[verifier::external_body]
fn public_key_of(secret: &[u8; 32]) -> (r: [u8; 33])
    requires
        valid_secret_key(secret@),
    ensures
        r@ == secp_public_key(secret@),
{
    let secp = Secp256k1::new();
    PublicKey::from_secret_key(&secp, &SecretKey::from_byte_array(secret).unwrap()).serialize()
}

/// `public` is the public key of the secret key `s`, and `c` is the 32-byte
/// secret key `(s + tweak) mod n`, which is not 0.
pub open spec fn tweaked_secret(public: Seq<u8>, tweak: Seq<u8>, s: Seq<u8>, c: Seq<u8>) -> bool {
    &&& valid_secret_key(s)
    &&& public == secp_public_key(s)
    &&& c.len() == 32
    &&& be_value(c) == (be_value(s) + be_value(tweak)) % curve_order()
    &&& be_value(c) != 0
}

/// Trusted: `PublicKey::from_slice`, `add_exp_tweak` and `serialize` on a
/// compressed public key. `add_exp_tweak` adds `tweak * G` to the key, and
/// the public key of a secret key `s` is `s * G`; so the public key of `s`
/// tweaked by `t` is the public key of `(s + t) mod n` when that is not 0.
#[verifier::external_body]
fn public_key_add_exp_tweak(public: &[u8; 33], tweak: &[u8; 32]) -> (r: Option<[u8; 33]>)
    requires
        valid_tweak(tweak@),
    ensures
        match r {
            Some(k) => secp_add_exp_tweak(public@, tweak@) == Some(k@),
            None => secp_add_exp_tweak(public@, tweak@) is None,
        },
        r matches Some(k) ==> forall|s: Seq<u8>, c: Seq<u8>|
            #![trigger secp_public_key(s), be_value(c)]
            tweaked_secret(public@, tweak@, s, c) ==> k@ == secp_public_key(c),
        r is None ==> forall|s: Seq<u8>, c: Seq<u8>|
            #![trigger secp_public_key(s), be_value(c)]
            !tweaked_secret(public@, tweak@, s, c),
{
    let secp = Secp256k1::new();
    let t = Scalar::from_be_bytes(*tweak).unwrap();
    match PublicKey::from_slice(public) {
        Ok(p) => match p.add_exp_tweak(&secp, &t) {
            Ok(q) => Some(q.serialize()),
            Err(_) => None,
        },
        Err(_) => None,
    }
}

/// An extended secret key: a secret key with its chain code.
#[derive(Debug)]
pub struct ExtendedSecretKey {
    pub secret_key: [u8; 32],
    pub chain_code: [u8; 32],
}

impl ExtendedSecretKey {
    fn new(secret_key: [u8; 32], chain_code: [u8; 32]) -> (r: Self)
        ensures
            r.secret_key == secret_key,
            r.chain_code == chain_code,
    {
        ExtendedSecretKey { secret_key, chain_code }
    }

    /// Overwrites the secret key and the chain code with zeros.
    pub fn zeroize(&mut self)
        ensures
            final(self).secret_key@ == Seq::new(32, |i: int| 0u8),
            final(self).chain_code@ == Seq::new(32, |i: int| 0u8),
    {
        zeroize_bytes(&mut self.secret_key);
        zeroize_bytes(&mut self.chain_code);
    }
}

/// The big-endian bytes of a 32-bit index.
pub open spec fn u32_be_bytes(x: u32) -> Seq<u8> {
    seq![
        (x / 0x1000000) as u8,
        ((x / 0x10000) % 256) as u8,
        ((x / 0x100) % 256) as u8,
        (x % 256) as u8,
    ]
}

fn index_be_bytes(x: u32) -> (r: [u8; 4])
    ensures
        r@ == u32_be_bytes(x),
{
    let r = [(x / 0x1000000) as u8, ((x / 0x10000) % 256) as u8, ((x / 0x100) % 256) as u8, (x % 256) as u8];
    assert(r@ =~= u32_be_bytes(x));
    r
}

/// The HMAC key used for master key derivation: the ASCII text `Crypto seed`.
pub open spec fn crypto_seed_key() -> Seq<u8> {
    seq![67u8, 114u8, 121u8, 112u8, 116u8, 111u8, 32u8, 115u8, 101u8, 101u8, 100u8]
}

/// The 64 bytes from which the master key and chain code are taken.
pub open spec fn master_mac(seed: Seq<u8>, salt: Seq<u8>, rounds: u32) -> Seq<u8> {
    hmac_sha512(crypto_seed_key(), pbkdf2_hmac_sha512(seed, salt, rounds))
}

/// The data that is MACed under the parent's chain code to derive a child:
/// `0x00 || secret || index` when hardened, `public key || index` otherwise.
pub open spec fn child_mac_data(parent_secret: Seq<u8>, index: u32, hardened: bool) -> Seq<u8> {
    if hardened {
        seq![0u8] + parent_secret + u32_be_bytes(index)
    } else {
        secp_public_key(parent_secret) + u32_be_bytes(index)
    }
}

/// The 64-byte MAC from which a child key's tweak and chain code are taken.
pub open spec fn child_mac(parent: ExtendedSecretKey, index: u32, hardened: bool) -> Seq<u8> {
    hmac_sha512(parent.chain_code@, child_mac_data(parent.secret_key@, index, hardened))
}

/// The four big-endian bytes of an index spell the index.
pub proof fn lemma_index_bytes_spell_index(x: u32)
    ensures
        u32_be_bytes(x).len() == 4,
        be_value(u32_be_bytes(x)) == x,
{
    let b = u32_be_bytes(x);
    assert(b.drop_last().drop_last().drop_last().drop_last().len() == 0);
    assert(b.drop_last().drop_last().drop_last() =~= seq![b[0]]);
    assert(b.drop_last().drop_last() =~= seq![b[0], b[1]]);
    assert(b.drop_last() =~= seq![b[0], b[1], b[2]]);
    reveal_with_fuel(be_value, 5);
    assert(be_value(b) == ((b[0] as nat * 256 + b[1] as nat) * 256 + b[2] as nat) * 256 + b[3] as nat);
    assert(((x / 0x1000000) as u8) as nat * 0x1000000 + (((x / 0x10000) % 256) as u8) as nat * 0x10000
        + (((x / 0x100) % 256) as u8) as nat * 0x100 + ((x % 256) as u8) as nat == x) by (bit_vector);
}

/// Hardened derivation MACs exactly 37 bytes under the parent's chain code:
/// the byte 0x00, the parent's 32-byte secret key, then the index as four
/// big-endian bytes. Normal derivation MACs the parent's public key
/// followed by the same four index bytes.
pub proof fn lemma_child_mac_input(parent: ExtendedSecretKey, index: u32)
    ensures
        ({
            let d = child_mac_data(parent.secret_key@, index, true);
            &&& child_mac(parent, index, true) == hmac_sha512(parent.chain_code@, d)
            &&& d.len() == 37
            &&& d[0] == 0u8
            &&& d.subrange(1, 33) == parent.secret_key@
            &&& be_value(d.subrange(33, 37)) == index
        }),
        ({
            let d = child_mac_data(parent.secret_key@, index, false);
            let pk = secp_public_key(parent.secret_key@);
            &&& child_mac(parent, index, false) == hmac_sha512(parent.chain_code@, d)
            &&& d.len() == pk.len() + 4
            &&& d.subrange(0, pk.len() as int) == pk
            &&& be_value(d.subrange(pk.len() as int, (pk.len() + 4) as int)) == index
        }),
{
    lemma_index_bytes_spell_index(index);
    let d = child_mac_data(parent.secret_key@, index, true);
    assert(d.subrange(1, 33) =~= parent.secret_key@);
    assert(d.subrange(33, 37) =~= u32_be_bytes(index));
    let e = child_mac_data(parent.secret_key@, index, false);
    let pk = secp_public_key(parent.secret_key@);
    assert(e.subrange(0, pk.len() as int) =~= pk);
    assert(e.subrange(pk.len() as int, (pk.len() + 4) as int) =~= u32_be_bytes(index));
}

fn take32(src: &Vec<u8>, start: usize) -> (r: [u8; 32])
    requires
        start + 32 <= src@.len(),
    ensures
        r@ == src@.subrange(start as int, start + 32),
{
    let mut out: [u8; 32] = [0u8; 32];
    let mut i: usize = 0;
    let len = src.len();
    while i < 32
        invariant
            0 <= i <= 32,
            len == src@.len(),
            start + 32 <= len,
            forall|k: int| 0 <= k < i ==> out@[k] == src@[start + k],
        decreases 32 - i,
    {
        out[i] = src[start + i];
        i = i + 1;
    }
    assert(out@ =~= src@.subrange(start as int, start + 32));
    out
}

fn append_bytes(dst: &mut Vec<u8>, src: &[u8])
    ensures
        final(dst)@ == old(dst)@ + src@,
{
    let n = src.len();
    let ghost start = dst@;
    for i in 0..n
        invariant
            n == src@.len(),
            dst@ == start + src@.take(i as int),
    {
        dst.push(src[i]);
        assert(dst@ =~= start + src@.take(i + 1));
    }
    assert(src@.take(n as int) =~= src@);
}

/// Derives the master extended secret key from a seed: the seed is stretched
/// with PBKDF2-HMAC-SHA-512 (`salt`, `rounds`) into 64 bytes, which are MACed
/// with HMAC-SHA-512 under the key `Crypto seed`; the first 32 bytes of the
/// MAC are the secret key and the last 32 the chain code.
pub fn derive_master_extended_secret_key(seed: &[u8], salt: &[u8], rounds: u32) -> (r: Result<
    ExtendedSecretKey,
    &'static str,
>)
    ensures
        master_mac(seed@, salt@, rounds).len() == 64,
        match r {
            Ok(k) => {
                &&& valid_secret_key(master_mac(seed@, salt@, rounds).take(32))
                &&& k.secret_key@ == master_mac(seed@, salt@, rounds).take(32)
                &&& k.chain_code@ == master_mac(seed@, salt@, rounds).skip(32)
            },
            Err(e) => {
                &&& !valid_secret_key(master_mac(seed@, salt@, rounds).take(32))
                &&& e@ == "Invalid secret key derived"@
            },
        },
{
    let mut master_seed_bytes: [u8; 64] = [0u8; 64];
    let _ = pbkdf2_fill(seed, salt, rounds, &mut master_seed_bytes);

    if master_seed_bytes.len() != 64 {
        return Err("Seed must be exactly 64 bytes");
    }
    let hmac_key: [u8; 11] = [67u8, 114u8, 121u8, 112u8, 116u8, 111u8, 32u8, 115u8, 101u8, 101u8, 100u8];
    assert(hmac_key@ =~= crypto_seed_key());
    let result = match hmac_sha512_bytes(&hmac_key, &master_seed_bytes) {
        Ok(m) => m,
        Err(_) => {
            return Err("HMAC initialization failed");
        },
    };

    let mut secret_key = take32(&result, 0);
    let mut chain_code = take32(&result, 32);
    assert(secret_key@ =~= result@.take(32));
    assert(chain_code@ =~= result@.skip(32));

    if !secret_key_valid(&secret_key) {
        zeroize_bytes(&mut secret_key);
        zeroize_bytes(&mut chain_code);
        return Err("Invalid secret key derived");
    }
    Ok(ExtendedSecretKey::new(secret_key, chain_code))
}

/// The compressed (33-byte) public key of an extended key's secret key: the
/// master public key that is stored beside a derived master key.
pub fn master_public_key(k: &ExtendedSecretKey) -> (r: [u8; 33])
    requires
        valid_secret_key(k.secret_key@),
    ensures
        r@ == secp_public_key(k.secret_key@),
{
    public_key_of(&k.secret_key)
}

/// Derives a child extended secret key from a parent.
///
/// Hardened derivation (which needs `index >= HARDENED_OFFSET`) MACs
/// `0x00 || parent secret || index`; normal derivation MACs the parent's
/// compressed public key and the index. The first 32 bytes of the MAC are
/// added to the parent secret modulo the curve order; the last 32 are the
/// child's chain code.
pub fn derive_child_extended_secret_key(parent: &ExtendedSecretKey, index: u32, hardened: bool) -> (r: Result<
    ExtendedSecretKey,
    &'static str,
>)
    ensures
        ({
            let mac = child_mac(*parent, index, hardened);
            let tweak = mac.take(32);
            let sum = (be_value(parent.secret_key@) + be_value(tweak)) % curve_order();
            match r {
                Ok(k) => {
                    &&& !(hardened && index < HARDENED_OFFSET)
                    &&& valid_secret_key(parent.secret_key@)
                    &&& valid_tweak(tweak)
                    &&& sum != 0
                    &&& be_value(k.secret_key@) == sum
                    &&& k.chain_code@ == mac.skip(32)
                },
                Err(e) => if hardened && index < HARDENED_OFFSET {
                    e@ == "Hardened derivation requires index >= 0x80000000"@
                } else if !hardened && !valid_secret_key(parent.secret_key@) {
                    e@ == "Invalid parent secret key"@
                } else if !valid_tweak(tweak) {
                    e@ == "Invalid tweak value"@
                } else if !valid_secret_key(parent.secret_key@) {
                    e@ == "Invalid parent secret key"@
                } else {
                    sum == 0 && e@ == "Invalid resulting secret key"@
                },
            }
        }),
{
    if hardened && index < HARDENED_OFFSET {
        return Err("Hardened derivation requires index >= 0x80000000");
    }
    let mut data: Vec<u8> = Vec::new();
    if hardened {
        data.push(0u8);
        append_bytes(&mut data, &parent.secret_key);
    } else {
        if !secret_key_valid(&parent.secret_key) {
            return Err("Invalid parent secret key");
        }
        let public_key = public_key_of(&parent.secret_key);
        append_bytes(&mut data, &public_key);
    }
    let index_bytes = index_be_bytes(index);
    append_bytes(&mut data, &index_bytes);
    assert(data@ =~= child_mac_data(parent.secret_key@, index, hardened));

    let result = match hmac_sha512_bytes(&parent.chain_code, data.as_slice()) {
        Ok(m) => m,
        Err(_) => {
            return Err("HMAC initialization failed");
        },
    };
    let secret_key_tweak = take32(&result, 0);
    let new_chain_code = take32(&result, 32);
    assert(secret_key_tweak@ =~= result@.take(32));
    assert(new_chain_code@ =~= result@.skip(32));

    if !scalar_in_range(&secret_key_tweak) {
        return Err("Invalid tweak value");
    }
    if !secret_key_valid(&parent.secret_key) {
        return Err("Invalid parent secret key");
    }
    match secret_key_add_tweak(&parent.secret_key, &secret_key_tweak) {
        Some(child) => Ok(ExtendedSecretKey::new(child, new_chain_code)),
        None => Err("Invalid resulting secret key"),
    }
}

/// The 64-byte MAC from which a child public key's tweak is taken.
pub open spec fn child_public_mac(parent_public: Seq<u8>, chain_code: Seq<u8>, index: u32) -> Seq<u8> {
    hmac_sha512(chain_code, parent_public + u32_be_bytes(index))
}

/// Derives a (non-hardened) child public key from a parent public key, given
/// in compressed form, and its chain code: the first 32 bytes of the MAC of
/// `public key || index` are added, times the generator, to the parent key.
///
/// When the parent public key is that of a secret key `s`, the child is the
/// public key of the child secret key that private derivation gives (the
/// secret `(s + tweak) mod n`; `lemma_private_and_public_tweaks_agree` shows
/// it is the secret `derive_child_extended_secret_key` derives).
pub fn derive_child_public_key(parent_pubkey: &[u8; 33], chain_code: &[u8], index: u32) -> (r: Result<
    [u8; 33],
    &'static str,
>)
    ensures
        ({
            let tweak = child_public_mac(parent_pubkey@, chain_code@, index).take(32);
            match r {
                Ok(k) => {
                    &&& index < HARDENED_OFFSET
                    &&& valid_tweak(tweak)
                    &&& secp_add_exp_tweak(parent_pubkey@, tweak) == Some(k@)
                },
                Err(e) => if index >= HARDENED_OFFSET {
                    e@ == "Cannot derive hardened key from public key"@
                } else if !valid_tweak(tweak) {
                    e@ == "Invalid tweak value"@
                } else {
                    secp_add_exp_tweak(parent_pubkey@, tweak) is None && e@
                        == "Invalid resulting public key"@
                },
            }
        }),
        forall|s: Seq<u8>, c: Seq<u8>|
            #![trigger secp_public_key(s), be_value(c)]
            index < HARDENED_OFFSET && valid_tweak(child_public_mac(parent_pubkey@, chain_code@, index).take(32))
                && tweaked_secret(
                parent_pubkey@,
                child_public_mac(parent_pubkey@, chain_code@, index).take(32),
                s,
                c,
            ) ==> (r matches Ok(k) && k@ == secp_public_key(c)),
{
    if index >= HARDENED_OFFSET {
        return Err("Cannot derive hardened key from public key");
    }
    let mut data: Vec<u8> = Vec::new();
    append_bytes(&mut data, parent_pubkey);
    let index_bytes = index_be_bytes(index);
    append_bytes(&mut data, &index_bytes);
    assert(data@ =~= parent_pubkey@ + u32_be_bytes(index));
    let result = match hmac_sha512_bytes(chain_code, data.as_slice()) {
        Ok(m) => m,
        Err(_) => {
            return Err("HMAC initialization failed");
        },
    };
    let tweak = take32(&result, 0);
    assert(tweak@ =~= result@.take(32));
    if !scalar_in_range(&tweak) {
        return Err("Invalid tweak value");
    }
    match public_key_add_exp_tweak(parent_pubkey, &tweak) {
        Some(child) => Ok(child),
        None => Err("Invalid resulting public key"),
    }
}

/// Private and public non-hardened derivation agree: both MAC the parent's
/// public key and the index under the parent's chain code, so they add the
/// same tweak; and the child secret key that private derivation gives (the
/// parent secret plus the tweak, modulo the curve order, not 0) is the
/// tweaked secret of which `derive_child_public_key` gives the public key,
/// when it derives from the parent's public key and chain code.
pub proof fn lemma_private_and_public_tweaks_agree(parent: ExtendedSecretKey, index: u32, child_secret: Seq<u8>)
    requires
        valid_secret_key(parent.secret_key@),
        child_secret.len() == 32,
        be_value(child_secret) == (be_value(parent.secret_key@) + be_value(
            child_mac(parent, index, false).take(32),
        )) % curve_order(),
        be_value(child_secret) != 0,
    ensures
        child_mac(parent, index, false) == child_public_mac(
            secp_public_key(parent.secret_key@),
            parent.chain_code@,
            index,
        ),
        tweaked_secret(
            secp_public_key(parent.secret_key@),
            child_public_mac(secp_public_key(parent.secret_key@), parent.chain_code@, index).take(32),
            parent.secret_key@,
            child_secret,
        ),
{
}

} // verus!
