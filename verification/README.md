# collpasswd

A self-hosted, shared password vault. Passwords are grouped in books
(projects) and sheets; each book has a P-256 key pair, every password is
sealed for the book's public key (ECIES: ECDH, HKDF-SHA256, AES-256-GCM), and
the book's private key is itself sealed with a master key derived from the
administrator's password.

The library under `src/` is verified with Verus: its functions carry
`requires`/`ensures` contracts, and the calls into cryptography, encoding,
token and spreadsheet crates stand behind small trusted functions (in
`src/primitives.rs`, and one std conversion in `src/text.rs`), whose
contracts state what those crates promise.

Layout:

- `src/crypto.rs`, `src/wire.rs`: the password cipher, the master key, and
  the byte layouts of sealed values.
- `src/auth.rs`: password hashing, tokens, bearer headers, the admin check.
- `src/routes/`: the decisions of each group of HTTP handlers (who may do
  what, which error answers a refused request, what is written to the store).
- `src/startup.rs`: the start-up dialogue, the master key from the stored
  salt, and the static-file answers.
- `src/text.rs`: trimming, decimal text and other text helpers.
- `app/`: the server itself (axum, SQLite, TLS, terminal input), which reads
  and writes and hands plain values to the library.
- `tests/`: tests of the library.

Run the server with `--no-tls` for plain HTTP; on first start it asks for the
administrator's password.
