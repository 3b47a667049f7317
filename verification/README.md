# noot

The verified core of Noot, a note-taking application whose notes live in
workspaces of Markdown files, optionally encrypted on disk.

- `src/` is the library, written in Verus: every function carries a
  contract that Verus proves. It holds the document model (HTML fragments
  built into elements, the text read aloud for them and their layout), the
  Markdown preview tokens, the framing and encryption of stored files, key
  derivation, the workspace path notation, the settings the stores are
  seeded with, and the decisions of the windows, buttons, splash screen,
  workers and rich presence.
- `tests/` exercises the library on concrete values.
- `app/` is a small command line around the library: it reads and writes
  files, talks to the operating system's secure storage for keys, and
  walks directories.

Calls into outside crates (hashing, HMAC, PBKDF2, secp256k1, ChaCha20-Poly1305,
cocoon, bincode, chrono, pulldown-cmark, html_parser, html-escape, url,
nanoid, stringcase) go through small trusted wrappers whose contracts state
what the crates document.
