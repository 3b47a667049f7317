[package]
name = "noot"
version = "0.1.0"
edition = "2021"
publish = false

[dependencies]
sha2 = "=0.10.9"
hmac = "=0.12.1"
pbkdf2 = "=0.12.2"
secp256k1 = "=0.30.0"
zeroize = "=1.9.1"
chacha20poly1305 = "=0.10.1"
rand = "=0.9.5"
cocoon = "=0.4.3"
html-escape = "=0.2.15"
pulldown-cmark = { version = "=0.13.6", default-features = false, features = ["html"] }
stringcase = "=1.0.0"
url = "=2.5.8"
html_parser = "=0.7.0"
nanoid = "=0.4.0"
keyring = "=3.6.3"
chrono = "=0.4.45"
walkdir = "=2.5.0"
bincode = "=2.0.1"
crossbeam-queue = "0.3"
