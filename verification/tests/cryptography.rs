use noot::subsystems::cryptography::keychain::{
    derive_child_extended_secret_key, derive_child_public_key, derive_master_extended_secret_key,
    master_public_key, ExtendedSecretKey, HARDENED_OFFSET,
};
use noot::subsystems::cryptography::keys::SymmetricCipher;
use noot::subsystems::cryptography::storage::{
    encode_consumer, encode_enterprise, open_consumer, parse_stored, retrieve_contents,
    StoredPayload, CONSUMER_MAGIC, ENTERPRISE_MAGIC,
};

const TEST_KEY: [u8; 32] = [
    0x42, 0x17, 0x99, 0x01, 0xaa, 0x5c, 0x3e, 0x77, 0x10, 0x20, 0x30, 0x40, 0x50, 0x60, 0x70, 0x80,
    0x0f, 0x1e, 0x2d, 0x3c, 0x4b, 0x5a, 0x69, 0x78, 0x87, 0x96, 0xa5, 0xb4, 0xc3, 0xd2, 0xe1, 0xf0,
];

fn secp_public(secret: &[u8; 32]) -> [u8; 33] {
    let secp = secp256k1::Secp256k1::new();
    let sk = secp256k1::SecretKey::from_byte_array(secret).unwrap();
    secp256k1::PublicKey::from_secret_key(&secp, &sk).serialize()
}

#[test]
fn test_codec_round_trip() {
    let mut cipher = SymmetricCipher::new(&TEST_KEY);
    let test_text = b"Hello, World";

    let encrypted = cipher.encrypt(test_text).ok().unwrap();

    let decrypted = cipher.decrypt(&encrypted[12..]).ok().unwrap();

    let parsed_text = String::from_utf8(decrypted).unwrap();
    assert_eq!(parsed_text, "Hello, World");
}

#[test]
fn test_encryption() {
    let raw = "Hello, World!";
    let mut writer = SymmetricCipher::new(&TEST_KEY);
    let stored = encode_consumer(&mut writer, raw.as_bytes());

    let mut reader = SymmetricCipher::new(&TEST_KEY);
    let output = retrieve_contents(&stored, &mut reader, b"unused password").unwrap();
    assert!(output.is_ok());

    let bytes = output.unwrap();

    let raw = String::from_utf8(bytes).unwrap();

    assert_eq!("Hello, World!", raw);
}

#[test]
fn encrypt_prefixes_nonce_and_appends_tag() {
    let mut cipher = SymmetricCipher::new(&TEST_KEY);
    let out = cipher.encrypt(b"abc").ok().unwrap();
    assert_eq!(out.len(), 3 + 28);
    assert_eq!(&out[..12], &cipher.nonce[..]);
    assert_ne!(&out[12..15], b"abc");
}

#[test]
fn decrypt_with_other_nonce_fails() {
    let mut cipher = SymmetricCipher::new(&TEST_KEY);
    let out = cipher.encrypt(b"secret").ok().unwrap();
    let mut nonce = cipher.nonce;
    nonce[0] ^= 1;
    assert!(cipher.decrypt_with_nonce(&nonce, &out[12..]).is_err());
    let own = cipher.nonce;
    assert!(cipher.decrypt_with_nonce(&own, &out[12..]).is_ok());
}

#[test]
fn update_nonce_keeps_key() {
    let mut cipher = SymmetricCipher::new(&TEST_KEY);
    cipher.update_nonce();
    assert_eq!(cipher.key, TEST_KEY);
}

#[test]
fn encode_consumer_frames_with_magic() {
    let mut cipher = SymmetricCipher::new(&TEST_KEY);
    let stored = encode_consumer(&mut cipher, b"data");
    assert_eq!(stored[0], CONSUMER_MAGIC);
    assert_eq!(&stored[1..13], &cipher.nonce[..]);
    assert_eq!(stored.len(), 1 + 12 + 4 + 16);
}

#[test]
fn parse_stored_splits_consumer_frame() {
    let mut buffer = vec![CONSUMER_MAGIC];
    buffer.extend(1u8..=12);
    buffer.extend([0xAA, 0xBB]);
    match parse_stored(&buffer) {
        StoredPayload::Consumer { nonce, ciphertext } => {
            assert_eq!(nonce, (1u8..=12).collect::<Vec<u8>>());
            assert_eq!(ciphertext, vec![0xAA, 0xBB]);
        }
        _ => panic!("expected a consumer frame"),
    }
}

#[test]
fn parse_stored_reads_enterprise_fields() {
    let mut buffer = vec![ENTERPRISE_MAGIC, 0x00, 0x01, 0xFF, 0x00, 0x00, 0x01, 0x02];
    buffer.resize(62, 7);
    buffer.push(9);
    match parse_stored(&buffer) {
        StoredPayload::Enterprise { version, size, header, body } => {
            assert_eq!(version, 1);
            assert_eq!(size, 0x0102);
            assert_eq!(header.len(), 61);
            assert_eq!(header[0], 0x00);
            assert_eq!(body, vec![9]);
        }
        _ => panic!("expected an enterprise frame"),
    }
}

#[test]
fn parse_stored_passes_plain_text() {
    match parse_stored(b"plain") {
        StoredPayload::Plain(data) => assert_eq!(data, b"plain".to_vec()),
        _ => panic!("expected plain text"),
    }
}

#[test]
fn retrieve_plain_text_unchanged() {
    let mut cipher = SymmetricCipher::new(&TEST_KEY);
    let out = retrieve_contents(b"# notes", &mut cipher, b"pw").unwrap();
    assert_eq!(out.unwrap(), b"# notes".to_vec());
}

#[test]
fn retrieve_tampered_consumer_frame_fails() {
    let mut cipher = SymmetricCipher::new(&TEST_KEY);
    let mut stored = encode_consumer(&mut cipher, b"Hello");
    let last = stored.len() - 1;
    stored[last] ^= 0x80;
    let out = retrieve_contents(&stored, &mut cipher, b"pw").unwrap();
    assert_eq!(out.unwrap_err(), "Decryption failed");
}

#[test]
fn retrieve_with_other_key_fails() {
    let mut writer = SymmetricCipher::new(&TEST_KEY);
    let stored = encode_consumer(&mut writer, b"Hello");
    let mut reader = SymmetricCipher::new(&[3u8; 32]);
    let out = retrieve_contents(&stored, &mut reader, b"pw").unwrap();
    assert!(out.is_err());
}

#[test]
fn open_consumer_error_message() {
    let mut cipher = SymmetricCipher::new(&TEST_KEY);
    let r = open_consumer(&mut cipher, &[0u8; 12], &[1u8; 20]);
    assert_eq!(r.unwrap_err(), "Decryption failed");
}

#[test]
fn enterprise_frame_layout_and_read_back() {
    let stored = encode_enterprise(b"password", b"Hello, World!");
    assert_eq!(stored[0], ENTERPRISE_MAGIC);
    assert_eq!(stored.len(), 13 + 61);
    let mut cipher = SymmetricCipher::new(&TEST_KEY);
    // The reader takes the header one byte too far, so the body is one byte
    // short and the container refuses it.
    assert!(retrieve_contents(&stored, &mut cipher, b"password").is_none());
}

#[test]
fn master_key_is_deterministic() {
    let seed = [5u8; 32];
    let a = derive_master_extended_secret_key(&seed, b"salt", 1000).unwrap();
    let b = derive_master_extended_secret_key(&seed, b"salt", 1000).unwrap();
    assert_eq!(a.secret_key, b.secret_key);
    assert_eq!(a.chain_code, b.chain_code);
    let c = derive_master_extended_secret_key(&seed, b"other", 1000).unwrap();
    assert_ne!(a.secret_key, c.secret_key);
}

#[test]
fn hardened_derivation_needs_high_index() {
    let master = derive_master_extended_secret_key(&[1u8; 32], b"salt", 1000).unwrap();
    let err = derive_child_extended_secret_key(&master, 5, true).unwrap_err();
    assert_eq!(err, "Hardened derivation requires index >= 0x80000000");
    let child = derive_child_extended_secret_key(&master, HARDENED_OFFSET + 5, true).unwrap();
    assert_ne!(child.secret_key, master.secret_key);
}

#[test]
fn public_derivation_rejects_hardened_index() {
    let master = derive_master_extended_secret_key(&[1u8; 32], b"salt", 1000).unwrap();
    let public = secp_public(&master.secret_key);
    let err = derive_child_public_key(&public, &master.chain_code, HARDENED_OFFSET).unwrap_err();
    assert_eq!(err, "Cannot derive hardened key from public key");
}

#[test]
fn public_and_private_derivation_agree() {
    let master = derive_master_extended_secret_key(&[9u8; 32], b"salt", 1000).unwrap();
    let child = derive_child_extended_secret_key(&master, 7, false).unwrap();
    let public = secp_public(&master.secret_key);
    let child_public = derive_child_public_key(&public, &master.chain_code, 7).unwrap();
    assert_eq!(child_public, secp_public(&child.secret_key));
}

#[test]
fn normal_derivation_rejects_invalid_parent() {
    let parent = ExtendedSecretKey { secret_key: [0u8; 32], chain_code: [1u8; 32] };
    let err = derive_child_extended_secret_key(&parent, 1, false).unwrap_err();
    assert_eq!(err, "Invalid parent secret key");
}

#[test]
fn zeroize_clears_key() {
    let mut key = derive_master_extended_secret_key(&[2u8; 32], b"salt", 1000).unwrap();
    key.zeroize();
    assert_eq!(key.secret_key, [0u8; 32]);
    assert_eq!(key.chain_code, [0u8; 32]);
}

#[test]
fn master_public_key_is_the_secret_keys_point() {
    let master = derive_master_extended_secret_key(&[3u8; 32], b"salt", 1000).unwrap();
    assert_eq!(master_public_key(&master), secp_public(&master.secret_key));

    let mut one = [0u8; 32];
    one[31] = 1;
    let generator = ExtendedSecretKey { secret_key: one, chain_code: [0u8; 32] };
    let expected: [u8; 33] = [
        0x02, 0x79, 0xbe, 0x66, 0x7e, 0xf9, 0xdc, 0xbb, 0xac, 0x55, 0xa0, 0x62, 0x95, 0xce, 0x87, 0x0b,
        0x07, 0x02, 0x9b, 0xfc, 0xdb, 0x2d, 0xce, 0x28, 0xd9, 0x59, 0xf2, 0x81, 0x5b, 0x16, 0xf8, 0x17,
        0x98,
    ];
    assert_eq!(master_public_key(&generator), expected);
}
