//! Framing of encrypted workspace files.
//!
//! A stored file starts with a magic byte: `CONSUMER_MAGIC` is followed by
//! a 12-byte nonce and a ChaCha20-Poly1305 ciphertext, `ENTERPRISE_MAGIC` by
//! a cocoon container; any other first byte marks plain text.

use vstd::prelude::*;
use cocoon::Cocoon;
use rand::RngCore;
use crate::subsystems::cryptography::keys::{
    chacha_open, encrypted_payload, fits_cipher, SymmetricCipher,
};

verus! {

/// Magic number marking a file encrypted with the consumer (symmetric) scheme.
pub const CONSUMER_MAGIC: u8 = 0xDF;

/// Magic number marking a file encrypted with the enterprise (cocoon) scheme.
pub const ENTERPRISE_MAGIC: u8 = 0x89;

/// The maximum number of bytes read into memory in a single cycle.
pub const CHUNK_SIZE: u32 = 1024;

/// The revision of the storage format.
pub const REVISION: u16 = 1;

/// The detached prefix and the encrypted body that a cocoon seeded with
/// `seed` produces for `data` under `password`.
pub uninterp spec fn cocoon_seal(password: Seq<u8>, seed: Seq<u8>, data: Seq<u8>) -> (Seq<u8>, Seq<u8>);

/// The buffer that decrypting `data` with a cocoon detached `prefix` under
/// `password` leaves; `None` when the prefix does not parse, the data is too
/// short or it does not authenticate.
pub uninterp spec fn cocoon_open(password: Seq<u8>, data: Seq<u8>, prefix: Seq<u8>) -> Option<Seq<u8>>;

/// The error of the cocoon container operations.
#[verifier::external_type_specification]
#[verifier::external_body]
pub struct ExCocoonError(cocoon::Error);

/// Trusted: `Cocoon::from_seed(password, seed).encrypt` on a copy of `data`.
/// With the default configuration (ChaCha20-Poly1305) it fails exactly when
/// the data has too many blocks for the cipher; otherwise it returns the
/// 60-byte detached prefix and the encrypted data, of the data's length,
/// which `Cocoon::decrypt` turns back into the data.
#[verifier::external_body]
fn cocoon_encrypt(password: &[u8], seed: [u8; 32], data: &[u8]) -> (r: Result<
    (Vec<u8>, Vec<u8>),
    cocoon::Error,
>)
    ensures
        r is Ok <==> fits_cipher(data@.len() as int),
        r matches Ok((prefix, body)) ==> {
            &&& (prefix@, body@) == cocoon_seal(password@, seed@, data@)
            &&& prefix@.len() == 60
            &&& body@.len() == data@.len()
            &&& cocoon_open(password@, body@, prefix@) == Some(data@)
        },
{
    let mut shell = Cocoon::from_seed(password, seed);
    let mut buffer = data.to_vec();
    let prefix = shell.encrypt(&mut buffer)?;
    Ok((prefix.to_vec(), buffer))
}

/// Trusted: `Cocoon::new(password).decrypt` on a copy of `data` with the
/// detached `prefix`.
#[verifier::external_body]
fn cocoon_decrypt(password: &[u8], data: &[u8], prefix: &[u8]) -> (r: Result<Vec<u8>, cocoon::Error>)
    ensures
        match r {
            Ok(d) => cocoon_open(password@, data@, prefix@) == Some(d@),
            Err(_) => cocoon_open(password@, data@, prefix@) is None,
        },
{
    let shell = Cocoon::new(password);
    let mut buffer = data.to_vec();
    shell.decrypt(&mut buffer, prefix)?;
    Ok(buffer)
}

/// Trusted: `rand::rng().fill_bytes`: 32 random bytes; nothing is promised
/// of their value.
#[verifier::external_body]
fn generate_seed(seed: &mut [u8; 32]) {
    let mut rng = rand::rng();
    rng.fill_bytes(seed);
}

fn append_bytes(dst: &mut Vec<u8>, src: &[u8])
    ensures
        final(dst)@ == old(dst)@ + src@,
{
    let n = src.len();
    let ghost start = dst@;
    for i in 0..n
        invariant
            n == src@.len(),
            dst@ == start + src@.take(i as int),
    {
        dst.push(src[i]);
        assert(dst@ =~= start + src@.take(i + 1));
    }
    assert(src@.take(n as int) =~= src@);
}

fn copy_range(src: &[u8], from: usize, to: usize) -> (r: Vec<u8>)
    requires
        from <= to <= src@.len(),
    ensures
        r@ == src@.subrange(from as int, to as int),
{
    let mut out: Vec<u8> = Vec::new();
    let mut i = from;
    while i < to
        invariant
            from <= i <= to,
            to <= src@.len(),
            out@ == src@.subrange(from as int, i as int),
        decreases to - i,
    {
        out.push(src[i]);
        i = i + 1;
        assert(out@ =~= src@.subrange(from as int, i as int));
    }
    out
}

/// A consumer frame that decrypts, under `key`, to `data`: the magic byte,
/// the 12-byte nonce, then a ciphertext that authenticates to `data`.
pub open spec fn consumer_frame_opens_to(frame: Seq<u8>, key: Seq<u8>, data: Seq<u8>) -> bool {
    &&& frame.len() >= 13
    &&& frame[0] == CONSUMER_MAGIC
    &&& chacha_open(key, frame.subrange(1, 13), frame.skip(13)) == Some(data)
}

/// Encrypts `data` with the consumer scheme and frames it for storage: the
/// consumer magic byte, then the cipher's nonce and ciphertext.
pub fn encode_consumer(cipher: &mut SymmetricCipher, data: &[u8]) -> (r: Vec<u8>)
    requires
        fits_cipher(data@.len() as int),
    ensures
        *final(cipher) == *old(cipher),
        r@ == seq![CONSUMER_MAGIC] + encrypted_payload(old(cipher).key@, old(cipher).nonce@, data@),
        r@.len() == 29 + data@.len(),
        consumer_frame_opens_to(r@, old(cipher).key@, data@),
{
    let mut buffer: Vec<u8> = Vec::new();
    buffer.push(CONSUMER_MAGIC);
    match cipher.encrypt(data) {
        Ok(encrypted) => {
            append_bytes(&mut buffer, encrypted.as_slice());
            assert(encrypted@.take(12) =~= old(cipher).nonce@);
            assert(buffer@.subrange(1, 13) =~= encrypted@.take(12));
            assert(buffer@.skip(13) =~= encrypted@.skip(12));
            assert(chacha_open(old(cipher).key@, buffer@.subrange(1, 13), buffer@.skip(13)) == Some(data@));
            buffer
        },
        Err(_) => {
            assert(false);
            buffer
        },
    }
}

/// Encrypts `data` with the enterprise scheme (a cocoon under `password`,
/// seeded with fresh random bytes) and frames it for storage: the enterprise
/// magic byte, the 60-byte detached prefix, then the encrypted data.
pub fn encode_enterprise(password: &[u8], data: &[u8]) -> (r: Vec<u8>)
    requires
        fits_cipher(data@.len() as int),
    ensures
        exists|seed: Seq<u8>|
            seed.len() == 32 && r@ == seq![ENTERPRISE_MAGIC] + (#[trigger] cocoon_seal(password@, seed, data@)).0
                + cocoon_seal(password@, seed, data@).1,
        r@.len() == data@.len() + 61,
{
    let mut seed: [u8; 32] = [0u8; 32];
    generate_seed(&mut seed);
    let mut buffer: Vec<u8> = Vec::new();
    buffer.push(ENTERPRISE_MAGIC);
    match cocoon_encrypt(password, seed, data) {
        Ok((prefix, body)) => {
            append_bytes(&mut buffer, prefix.as_slice());
            append_bytes(&mut buffer, body.as_slice());
            assert(buffer@ =~= seq![ENTERPRISE_MAGIC] + cocoon_seal(password@, seed@, data@).0
                + cocoon_seal(password@, seed@, data@).1);
            buffer
        },
        Err(_) => {
            assert(false);
            buffer
        },
    }
}

/// The parts of a stored file, as its first byte selects them.
pub enum StoredPayload {
    /// Consumer scheme: the nonce and the ciphertext (tag appended).
    Consumer { nonce: Vec<u8>, ciphertext: Vec<u8> },
    /// Enterprise scheme: the storage version and size read from the header,
    /// the cocoon header and the encrypted body.
    Enterprise { version: u16, size: u32, header: Vec<u8>, body: Vec<u8> },
    /// No magic number: the file is plain text.
    Plain(Vec<u8>),
}

/// The buffers on which `parse_stored` is defined: a first byte, and enough
/// bytes for the fields that the first byte selects.
pub open spec fn parse_defined(b: Seq<u8>) -> bool {
    &&& b.len() >= 1
    &&& b[0] == CONSUMER_MAGIC ==> b.len() >= 13
    &&& b[0] == ENTERPRISE_MAGIC ==> b.len() >= 62
}

/// Splits a stored file into the parts its magic byte selects: after the
/// consumer magic, bytes `1..13` are the nonce and the rest the ciphertext;
/// after the enterprise magic, bytes `1..3` are the big-endian version,
/// bytes `3..8` the big-endian size (kept to 32 bits, so byte 3 is shifted
/// out), bytes `1..62` the cocoon header and bytes from 62 on the body; any
/// other first byte marks plain text.
pub fn parse_stored(buffer: &[u8]) -> (r: StoredPayload)
    requires
        parse_defined(buffer@),
    ensures
        match r {
            StoredPayload::Consumer { nonce, ciphertext } => {
                &&& buffer@[0] == CONSUMER_MAGIC
                &&& nonce@ == buffer@.subrange(1, 13)
                &&& ciphertext@ == buffer@.skip(13)
            },
            StoredPayload::Enterprise { version, size, header, body } => {
                &&& buffer@[0] == ENTERPRISE_MAGIC
                &&& version as int == buffer@[1] as int * 256 + buffer@[2] as int
                &&& size as int == buffer@[4] as int * 0x1000000 + buffer@[5] as int * 0x10000
                    + buffer@[6] as int * 0x100 + buffer@[7] as int
                &&& header@ == buffer@.subrange(1, 62)
                &&& body@ == buffer@.skip(62)
            },
            StoredPayload::Plain(data) => {
                &&& buffer@[0] != CONSUMER_MAGIC
                &&& buffer@[0] != ENTERPRISE_MAGIC
                &&& data@ == buffer@
            },
        },
{
    let magic = buffer[0];
    let n = buffer.len();
    if magic == CONSUMER_MAGIC {
        let nonce = copy_range(buffer, 1, 13);
        let ciphertext = copy_range(buffer, 13, n);
        assert(ciphertext@ =~= buffer@.skip(13));
        StoredPayload::Consumer { nonce, ciphertext }
    } else if magic == ENTERPRISE_MAGIC {
        let version: u16 = (buffer[1] as u16) * 256 + (buffer[2] as u16);
        let size: u32 = (buffer[4] as u32) * 0x1000000 + (buffer[5] as u32) * 0x10000
            + (buffer[6] as u32) * 0x100 + (buffer[7] as u32);
        let header = copy_range(buffer, 1, 62);
        let body = copy_range(buffer, 62, n);
        assert(body@ =~= buffer@.skip(62));
        StoredPayload::Enterprise { version, size, header, body }
    } else {
        let data = copy_range(buffer, 0, n);
        assert(data@ =~= buffer@);
        StoredPayload::Plain(data)
    }
}

/// Decrypts the parts of a consumer frame; a ciphertext that does not
/// authenticate gives the error `Decryption failed`.
pub fn open_consumer(cipher: &mut SymmetricCipher, nonce: &[u8], ciphertext: &[u8]) -> (r: Result<
    Vec<u8>,
    String,
>)
    requires
        nonce@.len() == 12,
    ensures
        *final(cipher) == *old(cipher),
        match r {
            Ok(p) => chacha_open(old(cipher).key@, nonce@, ciphertext@) == Some(p@),
            Err(e) => chacha_open(old(cipher).key@, nonce@, ciphertext@) is None && e@
                == "Decryption failed"@,
        },
{
    match cipher.decrypt_with_nonce(nonce, ciphertext) {
        Ok(p) => Ok(p),
        Err(_) => Err(String::from_str("Decryption failed")),
    }
}

/// Decrypts the parts of an enterprise frame with a cocoon under `password`;
/// `None` when the cocoon refuses them.
pub fn open_enterprise(password: &[u8], header: &[u8], body: &[u8]) -> (r: Option<Vec<u8>>)
    ensures
        match r {
            Some(d) => cocoon_open(password@, body@, header@) == Some(d@),
            None => cocoon_open(password@, body@, header@) is None,
        },
{
    match cocoon_decrypt(password, body, header) {
        Ok(d) => Some(d),
        Err(_) => None,
    }
}

/// What reading a stored buffer gives back, given the consumer key and the
/// enterprise password: a consumer frame gives its plaintext, or the error
/// `Decryption failed` when it does not authenticate; an enterprise frame
/// gives the data that the cocoon recovers from the header at bytes `1..62`
/// and the body after it, and is `None` when the cocoon refuses them; any
/// other buffer is plain text and is given back as it is.
pub open spec fn retrieved(buffer: Seq<u8>, key: Seq<u8>, password: Seq<u8>) -> Option<
    Result<Seq<u8>, Seq<char>>,
> {
    if buffer[0] == CONSUMER_MAGIC {
        match chacha_open(key, buffer.subrange(1, 13), buffer.skip(13)) {
            Some(p) => Some(Ok(p)),
            None => Some(Err("Decryption failed"@)),
        }
    } else if buffer[0] == ENTERPRISE_MAGIC {
        match cocoon_open(password, buffer.skip(62), buffer.subrange(1, 62)) {
            Some(d) => Some(Ok(d)),
            None => None,
        }
    } else {
        Some(Ok(buffer))
    }
}

/// Reads a stored buffer back: the consumer scheme decrypts with the
/// cipher's key and the nonce of the frame, the enterprise scheme with a
/// cocoon under `password`, and a buffer without a magic byte is plain
/// text. `None` when the cocoon refuses an enterprise frame.
pub fn retrieve_contents(buffer: &[u8], cipher: &mut SymmetricCipher, password: &[u8]) -> (r: Option<
    Result<Vec<u8>, String>,
>)
    requires
        parse_defined(buffer@),
    ensures
        *final(cipher) == *old(cipher),
        match r {
            Some(Ok(d)) => retrieved(buffer@, old(cipher).key@, password@) == Some(
                Ok::<Seq<u8>, Seq<char>>(d@),
            ),
            Some(Err(e)) => retrieved(buffer@, old(cipher).key@, password@) == Some(
                Err::<Seq<u8>, Seq<char>>(e@),
            ),
            None => retrieved(buffer@, old(cipher).key@, password@) is None,
        },
{
    proof {
        reveal_strlit("Decryption failed");
    }
    match parse_stored(buffer) {
        StoredPayload::Consumer { nonce, ciphertext } => {
            match open_consumer(cipher, nonce.as_slice(), ciphertext.as_slice()) {
                Ok(p) => Some(Ok(p)),
                Err(e) => Some(Err(e)),
            }
        },
        StoredPayload::Enterprise { version: _, size: _, header, body } => {
            match open_enterprise(password, header.as_slice(), body.as_slice()) {
                Some(d) => Some(Ok(d)),
                None => None,
            }
        },
        StoredPayload::Plain(data) => Some(Ok(data)),
    }
}

/// What is written is read back: a frame that the consumer scheme wrote for
/// `data` under `key` (as `encode_consumer` ensures of its output) can be
/// read, and reading it gives `data`, whatever the enterprise password.
pub proof fn lemma_consumer_round_trip(frame: Seq<u8>, key: Seq<u8>, password: Seq<u8>, data: Seq<u8>)
    requires
        consumer_frame_opens_to(frame, key, data),
    ensures
        parse_defined(frame),
        retrieved(frame, key, password) == Some(Ok::<Seq<u8>, Seq<char>>(data)),
{
}

} // verus!
