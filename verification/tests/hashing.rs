use noot::subsystems::cryptography::hash::{sha256, sha512};
use noot::utils::cryptography::hashing::hash_str;

#[test]
fn sha256_of_abc() {
    assert_eq!(
        sha256("abc"),
        "ba7816bf8f01cfea414140de5dae2223b00361a396177a9cb410ff61f20015ad"
    );
}

#[test]
fn sha512_of_abc() {
    assert_eq!(
        sha512("abc"),
        "ddaf35a193617abacc417349ae20413112e6fa4e89a97ea20a9eeee64b55d39a2192992a274fc1a836ba3c23a3feebbd454d4423643ce80e2a9ac94fa54ca49f"
    );
}

#[test]
fn hash_str_matches_sha512_hex() {
    assert_eq!(hash_str("abc"), sha512("abc"));
    assert_eq!(hash_str("").len(), 128);
}
