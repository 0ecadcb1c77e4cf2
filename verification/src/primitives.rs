//! The calls this library makes into outside crates for encodings and
//! cryptography, each behind a small function whose contract states what
//! the crate's source and documentation promise. Where a result takes pages
//! to state (a cipher, a key derivation), it is given a name: the contract
//! says that the result is that name applied to the arguments, plus the
//! short facts (a decryption gives back what the encryption sealed) that
//! the callers need.
use aes_gcm::aead::{Aead, KeyInit, OsRng};
use aes_gcm::{Aes256Gcm, Nonce};
use argon2::password_hash::{PasswordHash, PasswordHasher, PasswordVerifier, SaltString};
use argon2::Argon2;
use base64::engine::general_purpose::STANDARD as BASE64;
use base64::Engine;
use hkdf::Hkdf;
use jsonwebtoken::{DecodingKey, EncodingKey, Header, Validation};
use p256::ecdh::diffie_hellman;
use p256::elliptic_curve::sec1::ToEncodedPoint;
use p256::pkcs8::{DecodePrivateKey, DecodePublicKey, EncodePrivateKey, EncodePublicKey, LineEnding};
use p256::{PublicKey, SecretKey};
use rand::RngCore;
use serde_json::Value;
use sha2::Sha256;
use crate::routes::spreadsheet::grid_view;
use crate::text::decimal;
use vstd::prelude::*;
use vstd::utf8::*;
use zeroize::Zeroize;

verus! {

// ─── base64 (STANDARD alphabet, canonical padding) ──────────────────────────

/// The text that base64's `STANDARD` engine writes for `data`.
pub uninterp spec fn base64_standard_encode(data: Seq<u8>) -> Seq<char>;

/// The bytes that base64's `STANDARD` engine reads back from `text`, or
/// `None` where the engine refuses the text.
pub uninterp spec fn base64_standard_decode(text: Seq<char>) -> Option<Seq<u8>>;

/// Whether `c` is one of the 65 characters the `STANDARD` engine writes:
/// `A`-`Z`, `a`-`z`, `0`-`9`, `+`, `/` and the padding `=`.
pub open spec fn is_base64_char(c: char) -> bool {
    ('A' <= c && c <= 'Z') || ('a' <= c && c <= 'z') || ('0' <= c && c <= '9') || c == '+' || c
        == '/' || c == '='
}

/// `STANDARD.encode(data)` of the base64 crate. Claimed: the text is the
/// encoding of `data`, and the same engine decodes it back to `data`; it is
/// four characters for every three bytes begun (padding included), each
/// from the standard alphabet.
#[verifier::external_body]
pub(crate) fn base64_encode(data: &[u8]) -> (text: String)
    ensures
        text@ == base64_standard_encode(data@),
        base64_standard_decode(text@) == Some(data@),
        text@.len() == 4 * ((data@.len() + 2) / 3),
        forall|i: int| 0 <= i < text@.len() ==> is_base64_char(#[trigger] text@[i]),
{
    BASE64.encode(data)
}

/// `STANDARD.decode(text)` of the base64 crate. Claimed: it succeeds with
/// the bytes `base64_standard_decode` names, and fails where that is `None`.
#[verifier::external_body]
pub(crate) fn base64_decode(text: &str) -> (data: Option<Vec<u8>>)
    ensures
        match data {
            Some(d) => base64_standard_decode(text@) == Some(d@),
            None => base64_standard_decode(text@) is None,
        },
{
    BASE64.decode(text).ok()
}

// ─── UTF-8 (std) ─────────────────────────────────────────────────────────────

/// `String::from_utf8` of std. Claimed: it succeeds exactly on valid UTF-8,
/// and the string then holds the characters those bytes encode.
#[verifier::external_body]
pub(crate) fn utf8_string(bytes: Vec<u8>) -> (s: Option<String>)
    ensures
        s is Some <==> valid_utf8(bytes@),
        s matches Some(t) ==> t@ == decode_utf8(bytes@),
{
    String::from_utf8(bytes).ok()
}

// ─── randomness ──────────────────────────────────────────────────────────────

/// `n` bytes from the operating system's generator (`OsRng::fill_bytes`).
/// Claimed: only the length.
#[verifier::external_body]
pub(crate) fn os_random_bytes(n: usize) -> (bytes: Vec<u8>)
    ensures
        bytes@.len() == n,
{
    let mut bytes = vec![0u8; n];
    OsRng.fill_bytes(&mut bytes);
    bytes
}

// ─── P-256 ───────────────────────────────────────────────────────────────────

/// Whether `SecretKey::from_slice` of p256 accepts `secret` as a scalar.
pub uninterp spec fn p256_secret_accepted(secret: Seq<u8>) -> bool;

/// The compressed SEC1 encoding of the public key of the secret scalar
/// `secret` (`SecretKey::public_key`, then `to_encoded_point(true)`).
pub uninterp spec fn p256_public_of(secret: Seq<u8>) -> Seq<u8>;

/// Whether `PublicKey::from_sec1_bytes` of p256 accepts `point`.
pub uninterp spec fn p256_point_accepted(point: Seq<u8>) -> bool;

/// The raw ECDH shared secret (`diffie_hellman(..).raw_secret_bytes()`) of
/// a secret scalar and an encoded public point.
pub uninterp spec fn p256_shared_secret(secret: Seq<u8>, point: Seq<u8>) -> Seq<u8>;

/// A fresh key pair from `SecretKey::random(&mut OsRng)`: the 32-byte
/// scalar (`to_bytes`) and the compressed public point. Claimed: the scalar
/// is one that `from_slice` accepts, the point is its public key and is
/// accepted by `from_sec1_bytes`, and Diffie-Hellman agrees: any accepted
/// scalar `t` shares with this point what this scalar shares with the
/// public key of `t`. The point is compressed: 33 bytes, the first of them
/// 2 or 3 (the parity of its y coordinate).
#[verifier::external_body]
pub(crate) fn p256_generate() -> (pair: (Vec<u8>, Vec<u8>))
    ensures
        pair.0@.len() == 32,
        p256_secret_accepted(pair.0@),
        pair.1@ == p256_public_of(pair.0@),
        pair.1@.len() == 33,
        pair.1@[0] == 2 || pair.1@[0] == 3,
        p256_point_accepted(pair.1@),
        forall|t: Seq<u8>|
            p256_secret_accepted(t) ==> #[trigger] p256_shared_secret(t, pair.1@)
                == p256_shared_secret(pair.0@, p256_public_of(t)),
{
    let secret = SecretKey::random(&mut OsRng);
    let point = secret.public_key().to_encoded_point(true).as_bytes().to_vec();
    (secret.to_bytes().to_vec(), point)
}

/// `diffie_hellman` of p256 on a scalar (`SecretKey::from_slice`) and a
/// point (`PublicKey::from_sec1_bytes`). Claimed: it gives the 32 bytes that
/// `p256_shared_secret` names, and fails exactly where one of the two
/// decodings fails.
#[verifier::external_body]
pub(crate) fn p256_diffie_hellman(secret: &[u8], point: &[u8]) -> (shared: Option<Vec<u8>>)
    ensures
        shared is Some <==> (p256_secret_accepted(secret@) && p256_point_accepted(point@)),
        shared matches Some(s) ==> s@ == p256_shared_secret(secret@, point@) && s@.len() == 32,
{
    let secret = SecretKey::from_slice(secret).ok()?;
    let point = PublicKey::from_sec1_bytes(point).ok()?;
    let shared = diffie_hellman(secret.to_nonzero_scalar(), point.as_affine());
    Some(shared.raw_secret_bytes().to_vec())
}

/// The PKCS#8 PEM text (LF line endings) of a secret scalar.
pub uninterp spec fn p256_secret_pem(secret: Seq<u8>) -> Seq<char>;

/// The 32-byte scalar that `SecretKey::from_pkcs8_pem` reads from `pem`
/// (`to_bytes` of the key), or `None` where it refuses the text.
pub uninterp spec fn p256_secret_from_pem(pem: Seq<char>) -> Option<Seq<u8>>;

/// Whether `text` opens with the `-----BEGIN` of a PEM armour.
pub open spec fn pem_armored(text: Seq<char>) -> bool {
    text.len() >= 10 && text.take(10) == seq!['-', '-', '-', '-', '-', 'B', 'E', 'G', 'I', 'N']
}

/// `to_pkcs8_pem(LineEnding::LF)` of the key that `SecretKey::from_slice`
/// reads from `secret`. Claimed: it succeeds for every scalar `from_slice`
/// accepts (the DER document of a P-256 key has a fixed, small size, so
/// neither the DER nor the PEM encoder meets a limit); the text is the one
/// `p256_secret_pem` names, opens with `-----BEGIN`, is ASCII of well under
/// 4096 bytes (a 138-byte DER document in base64 lines between two armour
/// lines), and, for a 32-byte scalar, reading it back gives the scalar.
#[verifier::external_body]
pub(crate) fn p256_secret_to_pem(secret: &[u8]) -> (pem: Option<String>)
    ensures
        p256_secret_accepted(secret@) ==> pem is Some,
        pem matches Some(p) ==> p@ == p256_secret_pem(secret@) && pem_armored(p@) && encode_utf8(
            p@,
        ).len() <= 4096 && (secret@.len() == 32 ==> p256_secret_from_pem(p@) == Some(secret@)),
{
    let key = SecretKey::from_slice(secret).ok()?;
    match key.to_pkcs8_pem(LineEnding::LF) {
        Ok(pem) => Some(pem.to_string()),
        Err(_) => None,
    }
}

/// `SecretKey::from_pkcs8_pem` of p256, then `to_bytes`. Claimed: the result
/// is what `p256_secret_from_pem` names; a scalar read is 32 bytes long and
/// accepted by `from_slice`.
#[verifier::external_body]
pub(crate) fn p256_secret_read_pem(pem: &str) -> (secret: Option<Vec<u8>>)
    ensures
        match secret {
            Some(s) => p256_secret_from_pem(pem@) == Some(s@) && s@.len() == 32
                && p256_secret_accepted(s@),
            None => p256_secret_from_pem(pem@) is None,
        },
{
    match SecretKey::from_pkcs8_pem(pem) {
        Ok(key) => Some(key.to_bytes().to_vec()),
        Err(_) => None,
    }
}

/// The SubjectPublicKeyInfo PEM text (LF line endings) of an encoded point.
pub uninterp spec fn p256_public_pem(point: Seq<u8>) -> Seq<char>;

/// The compressed point that `PublicKey::from_public_key_pem` reads from
/// `pem`, or `None` where it refuses the text.
pub uninterp spec fn p256_public_from_pem(pem: Seq<char>) -> Option<Seq<u8>>;

/// `to_public_key_pem(LineEnding::LF)` of the key that
/// `PublicKey::from_sec1_bytes` reads from `point`. Claimed: it succeeds for
/// every point `from_sec1_bytes` accepts (the SubjectPublicKeyInfo of a
/// P-256 key has a fixed, small size); the text is the one
/// `p256_public_pem` names, opens with `-----BEGIN`, and, for a 33-byte
/// (compressed) point, reading it back gives the same point.
#[verifier::external_body]
pub(crate) fn p256_public_to_pem(point: &[u8]) -> (pem: Option<String>)
    ensures
        p256_point_accepted(point@) ==> pem is Some,
        pem matches Some(p) ==> p@ == p256_public_pem(point@) && pem_armored(p@) && (point@.len()
            == 33 ==> p256_public_from_pem(p@) == Some(point@)),
{
    let key = PublicKey::from_sec1_bytes(point).ok()?;
    key.to_public_key_pem(LineEnding::LF).ok()
}

/// `PublicKey::from_public_key_pem` of p256, then the compressed SEC1
/// encoding. Claimed: the result is what `p256_public_from_pem` names; a
/// point read is 33 bytes long and accepted by `from_sec1_bytes`.
#[verifier::external_body]
pub(crate) fn p256_public_read_pem(pem: &str) -> (point: Option<Vec<u8>>)
    ensures
        match point {
            Some(p) => p256_public_from_pem(pem@) == Some(p@) && p@.len() == 33
                && p256_point_accepted(p@),
            None => p256_public_from_pem(pem@) is None,
        },
{
    match PublicKey::from_public_key_pem(pem) {
        Ok(key) => Some(key.to_encoded_point(true).as_bytes().to_vec()),
        Err(_) => None,
    }
}

// ─── HKDF-SHA256 ─────────────────────────────────────────────────────────────

/// The `len` output bytes of HKDF-SHA256 (RFC 5869) with an optional salt.
pub uninterp spec fn hkdf_sha256(salt: Option<Seq<u8>>, ikm: Seq<u8>, info: Seq<u8>, len: nat) -> Seq<u8>;

/// The view of an optional byte slice.
pub open spec fn opt_bytes(b: Option<&[u8]>) -> Option<Seq<u8>> {
    match b {
        Some(s) => Some(s@),
        None => None,
    }
}

/// `Hkdf::<Sha256>::new(salt, ikm)` then `expand(info, ..)` into `len`
/// bytes. Claimed: the output is what `hkdf_sha256` names, and the call
/// fails exactly when `len` exceeds 255 hash lengths (8160 bytes).
#[verifier::external_body]
pub(crate) fn hkdf_sha256_expand(salt: Option<&[u8]>, ikm: &[u8], info: &[u8], len: usize) -> (okm: Option<Vec<u8>>)
    ensures
        okm is Some <==> len <= 8160,
        okm matches Some(k) ==> k@ == hkdf_sha256(opt_bytes(salt), ikm@, info@, len as nat)
            && k@.len() == len,
{
    let hk = Hkdf::<Sha256>::new(salt, ikm);
    let mut okm = vec![0u8; len];
    match hk.expand(info, &mut okm) {
        Ok(()) => Some(okm),
        Err(_) => None,
    }
}

// ─── AES-256-GCM ─────────────────────────────────────────────────────────────

/// The AES-256-GCM ciphertext (with its 16-byte tag) of `plaintext`.
pub uninterp spec fn aes256gcm_seal(key: Seq<u8>, nonce: Seq<u8>, plaintext: Seq<u8>) -> Seq<u8>;

/// The plaintext that AES-256-GCM authenticates and recovers from
/// `ciphertext`, or `None` where the tag does not check.
pub uninterp spec fn aes256gcm_open(key: Seq<u8>, nonce: Seq<u8>, ciphertext: Seq<u8>) -> Option<Seq<u8>>;

/// `Aes256Gcm::new_from_slice(key)` then `encrypt(nonce, plaintext)`.
/// Claimed: it succeeds exactly for a 32-byte key and a plaintext of at most
/// 2^36 bytes (the crate's `P_MAX`); the ciphertext is what `aes256gcm_seal`
/// names, is 16 bytes longer, and decrypts back to the plaintext.
#[verifier::external_body]
pub(crate) fn aes256gcm_encrypt(key: &[u8], nonce: &[u8], plaintext: &[u8]) -> (ciphertext: Option<Vec<u8>>)
    requires
        nonce@.len() == 12,
    ensures
        ciphertext is Some <==> (key@.len() == 32 && plaintext@.len() <= 0x10_0000_0000),
        ciphertext matches Some(c) ==> c@ == aes256gcm_seal(key@, nonce@, plaintext@)
            && c@.len() == plaintext@.len() + 16
            && aes256gcm_open(key@, nonce@, c@) == Some(plaintext@),
{
    let cipher = Aes256Gcm::new_from_slice(key).ok()?;
    cipher.encrypt(Nonce::from_slice(nonce), plaintext).ok()
}

/// `Aes256Gcm::new_from_slice(key)` then `decrypt(nonce, ciphertext)`.
/// Claimed: with a 32-byte key the result is what `aes256gcm_open` names;
/// with a key of another length it fails.
#[verifier::external_body]
pub(crate) fn aes256gcm_decrypt(key: &[u8], nonce: &[u8], ciphertext: &[u8]) -> (plaintext: Option<Vec<u8>>)
    requires
        nonce@.len() == 12,
    ensures
        key@.len() != 32 ==> plaintext is None,
        key@.len() == 32 ==> match plaintext {
            Some(p) => aes256gcm_open(key@, nonce@, ciphertext@) == Some(p@),
            None => aes256gcm_open(key@, nonce@, ciphertext@) is None,
        },
{
    let cipher = Aes256Gcm::new_from_slice(key).ok()?;
    cipher.decrypt(Nonce::from_slice(nonce), ciphertext).ok()
}

// ─── Argon2id password hashing ───────────────────────────────────────────────

/// Whether `PasswordHash::new` of password-hash parses `hash` as a PHC string.
pub uninterp spec fn argon2_hash_parses(hash: Seq<char>) -> bool;

/// Whether `Argon2::default().verify_password(password, ..)` accepts the
/// parsed PHC string `hash`.
pub uninterp spec fn argon2_accepts(password: Seq<u8>, hash: Seq<char>) -> bool;

/// The identifier that opens every Argon2id PHC string: `$argon2id$`.
pub open spec fn argon2id_prefix() -> Seq<char> {
    seq!['$', 'a', 'r', 'g', 'o', 'n', '2', 'i', 'd', '$']
}

/// `Argon2::default().hash_password(password, salt)` with a fresh
/// `SaltString::generate(&mut OsRng)`, as a PHC string. Claimed: with the
/// default parameters and a generated 16-byte salt the only refusal left is
/// a password over `MAX_PWD_LEN` (2^32 - 1) bytes; the string names the
/// `argon2id` algorithm first, parses, and verifies against the same
/// password. Not claimed: the rest of its text, which depends on the random
/// salt.
#[verifier::external_body]
pub(crate) fn argon2_hash(password: &[u8]) -> (hash: Option<String>)
    ensures
        password@.len() <= 0xFFFF_FFFF ==> hash is Some,
        hash matches Some(h) ==> argon2_hash_parses(h@) && argon2_accepts(password@, h@)
            && h@.len() >= 10 && h@.take(10) == argon2id_prefix(),
{
    let salt = SaltString::generate(&mut OsRng);
    match Argon2::default().hash_password(password, &salt) {
        Ok(h) => Some(h.to_string()),
        Err(_) => None,
    }
}

/// `PasswordHash::new(hash)` then `Argon2::default().verify_password`.
/// Claimed: `None` exactly when the PHC string does not parse; otherwise
/// whether the password is accepted.
#[verifier::external_body]
pub(crate) fn argon2_verify(password: &[u8], hash: &str) -> (ok: Option<bool>)
    ensures
        ok is Some <==> argon2_hash_parses(hash@),
        ok matches Some(b) ==> b == argon2_accepts(password@, hash@),
{
    let parsed = PasswordHash::new(hash).ok()?;
    Some(Argon2::default().verify_password(password, &parsed).is_ok())
}

// ─── JSON Web Tokens (HS256) ─────────────────────────────────────────────────

/// The token that `jsonwebtoken::encode` writes with the default header
/// (HS256) for the claims `sub`, `username`, `role`, `exp`, in that order.
pub uninterp spec fn jwt_hs256_token(sub: int, username: Seq<char>, role: Seq<char>, exp: int, secret: Seq<u8>) -> Seq<char>;

/// The claims (`sub`, `username`, `role`, `exp`) that `token` carries when
/// its HS256 signature checks under `secret` and its payload holds them
/// with those types; `None` otherwise. The expiry is not compared with any
/// clock here.
pub uninterp spec fn jwt_hs256_claims(token: Seq<char>, secret: Seq<u8>) -> Option<(int, Seq<char>, Seq<char>, int)>;

/// `jsonwebtoken::encode(&Header::default(), claims, &EncodingKey::from_secret(secret))`.
/// Claimed: it succeeds (the HS256 key family matches the default header,
/// a JSON map always serialises, and HMAC takes a key of any length); the
/// token is the one `jwt_hs256_token` names and carries the claims it was
/// given.
#[verifier::external_body]
pub(crate) fn jwt_encode(sub: i64, username: &str, role: &str, exp: usize, secret: &[u8]) -> (token: Option<String>)
    ensures
        token is Some,
        token matches Some(t) ==> t@ == jwt_hs256_token(sub as int, username@, role@, exp as int, secret@)
            && jwt_hs256_claims(t@, secret@) == Some((sub as int, username@, role@, exp as int)),
{
    let mut claims = serde_json::Map::new();
    claims.insert("sub".to_string(), Value::from(sub));
    claims.insert("username".to_string(), Value::from(username));
    claims.insert("role".to_string(), Value::from(role));
    claims.insert("exp".to_string(), Value::from(exp));
    jsonwebtoken::encode(&Header::default(), &claims, &EncodingKey::from_secret(secret)).ok()
}

/// `jsonwebtoken::decode` with `Validation::default()` (HS256, `exp` required
/// and compared with the clock), the expiry read as the JSON's `u64`.
/// Claimed: what it returns are the claims the token carries. Not claimed:
/// when it succeeds, which depends on the clock.
#[verifier::external_body]
pub(crate) fn jwt_decode(token: &str, secret: &[u8]) -> (claims: Option<(i64, String, String, u64)>)
    ensures
        claims matches Some(c) ==> jwt_hs256_claims(token@, secret@) == Some(
            (c.0 as int, c.1@, c.2@, c.3 as int),
        ),
{
    let data = jsonwebtoken::decode::<serde_json::Map<String, Value>>(token, &DecodingKey::from_secret(secret), &Validation::default()).ok()?;
    let c = data.claims;
    match (c.get("sub").and_then(Value::as_i64), c.get("username").and_then(Value::as_str), c.get("role").and_then(Value::as_str), c.get("exp").and_then(Value::as_u64)) {
        (Some(s), Some(u), Some(r), Some(e)) => Some((s, u.to_string(), r.to_string(), e)),
        _ => None,
    }
}

// ─── text ────────────────────────────────────────────────────────────────────

/// The text that `str::to_lowercase` of std gives for `s` (full Unicode
/// lower-casing).
pub uninterp spec fn std_lowercase(s: Seq<char>) -> Seq<char>;

/// `str::to_lowercase` of std. Claimed: the result is what
/// `std_lowercase` names.
#[verifier::external_body]
pub(crate) fn to_lowercase(s: &str) -> (r: String)
    ensures
        r@ == std_lowercase(s@),
{
    s.to_lowercase()
}

/// The MIME type that `mime_guess::from_path(path).first_or_octet_stream()`
/// gives for the extension of `path`, as text.
pub uninterp spec fn mime_of_path(path: Seq<char>) -> Seq<char>;

/// `mime_guess::from_path(path).first_or_octet_stream()`, as text. Claimed:
/// the result is what `mime_of_path` names.
#[verifier::external_body]
pub(crate) fn guess_mime(path: &str) -> (m: String)
    ensures
        m@ == mime_of_path(path@),
{
    mime_guess::from_path(path).first_or_octet_stream().to_string()
}

// ─── XLSX workbooks (rust_xlsxwriter) ────────────────────────────────────────

/// The largest row count and column count of a worksheet.
pub const XLSX_ROWS: u32 = 1048576;

/// The largest column count of a worksheet.
pub const XLSX_COLS: u16 = 16384;

/// The longest text, in characters, a cell holds.
pub const XLSX_MAX_TEXT: usize = 32767;

#[verifier::external_type_specification]
#[verifier::external_body]
pub struct ExXlsxWorkbook(rust_xlsxwriter::Workbook);

#[verifier::external_type_specification]
#[verifier::external_body]
pub struct ExXlsxWorksheet(rust_xlsxwriter::Worksheet);

#[verifier::external_type_specification]
#[verifier::external_body]
pub struct ExXlsxFormat(rust_xlsxwriter::Format);

/// The names of the worksheets a workbook holds, in order.
pub uninterp spec fn xlsx_book_names(wb: rust_xlsxwriter::Workbook) -> Seq<Seq<char>>;

/// The cells of the worksheets a workbook holds, in order (as
/// `xlsx_worksheet_cells` gives them for each).
pub uninterp spec fn xlsx_book_cells(wb: rust_xlsxwriter::Workbook) -> Seq<Map<(int, int), (Seq<char>, bool)>>;

/// The workbook's `num_worksheets` counter (a `u16`): how many worksheets
/// `add_worksheet` has added, the number its default names are made from.
pub uninterp spec fn xlsx_worksheets_added(wb: rust_xlsxwriter::Workbook) -> u16;

/// The name of a worksheet.
pub uninterp spec fn xlsx_worksheet_name(ws: rust_xlsxwriter::Worksheet) -> Seq<char>;

/// The cells a worksheet holds: at (row, column), the text of the cell
/// (empty for a formatted blank) and whether its format is bold.
pub uninterp spec fn xlsx_worksheet_cells(ws: rust_xlsxwriter::Worksheet) -> Map<(int, int), (Seq<char>, bool)>;

/// A worksheet without cells.
pub open spec fn no_cells() -> Map<(int, int), (Seq<char>, bool)> {
    Map::empty()
}

/// Whether a format sets bold text.
pub uninterp spec fn xlsx_format_bold(f: rust_xlsxwriter::Format) -> bool;

/// Whether `Worksheet::set_name` accepts `name` (`validate_sheetname`): not
/// empty, at most 31 characters, none of `* ? : [ ] \ /`, and neither
/// starting nor ending with an apostrophe.
pub open spec fn xlsx_name_valid(name: Seq<char>) -> bool {
    &&& 0 < name.len() <= 31
    &&& forall|i: int|
        0 <= i < name.len() ==> !(#[trigger] name[i] == '*' || name[i] == '?' || name[i] == ':'
            || name[i] == '[' || name[i] == ']' || name[i] == '\\' || name[i] == '/')
    &&& name[0] != '\''
    &&& name[name.len() - 1] != '\''
}

/// The name `add_worksheet` gives the worksheet it adds as the `n`-th.
pub open spec fn xlsx_default_name(n: int) -> Seq<char> {
    seq!['S', 'h', 'e', 'e', 't'] + decimal(n)
}

/// `Workbook::new()` of rust_xlsxwriter: a workbook without worksheets.
#[verifier::external_body]
pub(crate) fn xlsx_workbook() -> (wb: rust_xlsxwriter::Workbook)
    ensures
        xlsx_book_names(wb) == Seq::<Seq<char>>::empty(),
        xlsx_book_cells(wb).len() == 0,
        xlsx_worksheets_added(wb) == 0,
{
    rust_xlsxwriter::Workbook::new()
}

/// `Format::new().set_bold()`: the format of bold text.
#[verifier::external_body]
pub(crate) fn xlsx_bold() -> (f: rust_xlsxwriter::Format)
    ensures
        xlsx_format_bold(f),
{
    rust_xlsxwriter::Format::new().set_bold()
}

/// `Workbook::add_worksheet`: appends a worksheet and hands it out.
/// Claimed: the `u16` counter goes up by one (the caller keeps it below its
/// largest value, where `+ 1` would overflow); the worksheet has no cells
/// and is named `Sheet` and the new counter; the workbook's names and cells
/// gain, at the end, the name and cells the worksheet has when the caller is
/// done with it.
#[verifier::external_body]
pub(crate) fn xlsx_add_worksheet(wb: &mut rust_xlsxwriter::Workbook) -> (ws: &mut rust_xlsxwriter::Worksheet)
    requires
        xlsx_worksheets_added(*old(wb)) < 65535,
    ensures
        xlsx_worksheet_name(*ws) == xlsx_default_name(xlsx_worksheets_added(*old(wb)) + 1int),
        xlsx_worksheet_cells(*ws) == no_cells(),
        xlsx_worksheets_added(*final(wb)) == xlsx_worksheets_added(*old(wb)) + 1,
        xlsx_book_names(*final(wb)) == xlsx_book_names(*old(wb)).push(xlsx_worksheet_name(*final(ws))),
        xlsx_book_cells(*final(wb)) == xlsx_book_cells(*old(wb)).push(xlsx_worksheet_cells(*final(ws))),
{
    wb.add_worksheet()
}

/// `Worksheet::set_name`, with the error written as text. Claimed, from the
/// crate's source: it succeeds exactly for a name `validate_sheetname`
/// accepts, and then the worksheet has that name; otherwise the worksheet
/// is left as it was. The cells are not touched.
#[verifier::external_body]
pub(crate) fn xlsx_set_name(ws: &mut rust_xlsxwriter::Worksheet, name: &str) -> (res: Result<(), String>)
    ensures
        res is Ok <==> xlsx_name_valid(name@),
        res is Ok ==> xlsx_worksheet_name(*final(ws)) == name@,
        res is Err ==> xlsx_worksheet_name(*final(ws)) == xlsx_worksheet_name(*old(ws)),
        xlsx_worksheet_cells(*final(ws)) == xlsx_worksheet_cells(*old(ws)),
{
    match ws.set_name(name) {
        Ok(_) => Ok(()),
        Err(e) => Err(e.to_string()),
    }
}

/// `Worksheet::write_string`, with the error written as text. Claimed, from
/// the crate's source (`store_string`): an empty text is skipped and changes
/// nothing; any other text is written exactly when the cell is within the
/// sheet's limits and the text has at most 32,767 characters, and then the
/// cell holds it without bold; a refused write leaves the cells as they
/// were. The worksheet keeps its name.
#[verifier::external_body]
pub(crate) fn xlsx_write_string(ws: &mut rust_xlsxwriter::Worksheet, row: u32, col: u16, text: &str) -> (res: Result<(), String>)
    ensures
        xlsx_worksheet_name(*final(ws)) == xlsx_worksheet_name(*old(ws)),
        text@.len() == 0 ==> res is Ok,
        text@.len() > 0 ==> (res is Ok <==> (row < XLSX_ROWS && col < XLSX_COLS && text@.len()
            <= XLSX_MAX_TEXT)),
        text@.len() > 0 && res is Ok ==> xlsx_worksheet_cells(*final(ws)) == xlsx_worksheet_cells(
            *old(ws),
        ).insert((row as int, col as int), (text@, false)),
        text@.len() == 0 || res is Err ==> xlsx_worksheet_cells(*final(ws)) == xlsx_worksheet_cells(
            *old(ws),
        ),
{
    match ws.write_string(row, col, text) {
        Ok(_) => Ok(()),
        Err(e) => Err(e.to_string()),
    }
}

/// `Worksheet::write_string_with_format`, with the error written as text.
/// Claimed, from the crate's source (`store_string`, `store_blank`): it is
/// written exactly when the cell is within the sheet's limits and the text
/// has at most 32,767 characters (an empty text is written as a formatted
/// blank), and then the cell holds the text with the format's boldness; a
/// refused write leaves the cells as they were. The worksheet keeps its
/// name.
#[verifier::external_body]
pub(crate) fn xlsx_write_formatted(ws: &mut rust_xlsxwriter::Worksheet, row: u32, col: u16, text: &str, format: &rust_xlsxwriter::Format) -> (res: Result<(), String>)
    ensures
        xlsx_worksheet_name(*final(ws)) == xlsx_worksheet_name(*old(ws)),
        res is Ok <==> (row < XLSX_ROWS && col < XLSX_COLS && text@.len() <= XLSX_MAX_TEXT),
        res is Ok ==> xlsx_worksheet_cells(*final(ws)) == xlsx_worksheet_cells(*old(ws)).insert(
            (row as int, col as int),
            (text@, xlsx_format_bold(*format)),
        ),
        res is Err ==> xlsx_worksheet_cells(*final(ws)) == xlsx_worksheet_cells(*old(ws)),
{
    match ws.write_string_with_format(row, col, text, format) {
        Ok(_) => Ok(()),
        Err(e) => Err(e.to_string()),
    }
}

/// The signature that opens a ZIP archive: the magic number of its first
/// local file header (`PK\x03\x04`).
pub open spec fn zip_signature() -> Seq<u8> {
    seq![0x50u8, 0x4Bu8, 0x03u8, 0x04u8]
}

/// Whether no two names are the same once lower-cased.
pub open spec fn names_distinct_lowercase(names: Seq<Seq<char>>) -> bool {
    forall|i: int, j: int|
        0 <= i < j < names.len() ==> std_lowercase(#[trigger] names[i]) != std_lowercase(
            #[trigger] names[j],
        )
}

/// The worksheets an XLSX file that rust_xlsxwriter wrote holds, in order:
/// each one's name and cells (text, and whether the cell's format is bold),
/// as they stood in the workbook it saved.
pub uninterp spec fn xlsx_file_sheets(file: Seq<u8>) -> Seq<(Seq<char>, Map<(int, int), (Seq<char>, bool)>)>;

/// The worksheets of a workbook as name and cells, in order.
pub open spec fn paired_sheets(names: Seq<Seq<char>>, cells: Seq<Map<(int, int), (Seq<char>, bool)>>) -> Seq<(Seq<char>, Map<(int, int), (Seq<char>, bool)>)> {
    Seq::new(names.len(), |i: int| (names[i], cells[i]))
}

/// `Workbook::save_to_buffer`: the bytes of the XLSX file, or the error as
/// text. The file holds the workbook's worksheets, names and cells, in
/// order (for a workbook with at least one; an empty one gets a default
/// sheet). Claimed, from the crate's source: for a workbook of plain
/// worksheets the only refusal is a worksheet name used twice, compared
/// lower-cased (`save_internal`); the buffer in memory takes every write.
/// The file is a ZIP archive whose first entry the zip crate's writer opens
/// with a local file header, so the bytes begin with the ZIP signature. Not
/// claimed: the rest of the bytes, which hold the time of writing.
#[verifier::external_body]
pub(crate) fn xlsx_save(wb: &mut rust_xlsxwriter::Workbook) -> (res: Result<Vec<u8>, String>)
    ensures
        names_distinct_lowercase(xlsx_book_names(*old(wb))) ==> res is Ok,
        res matches Ok(b) ==> b@.len() >= 4 && b@.take(4) == zip_signature(),
        res matches Ok(b) ==> (xlsx_book_names(*old(wb)).len() > 0 ==> xlsx_file_sheets(b@)
            == paired_sheets(xlsx_book_names(*old(wb)), xlsx_book_cells(*old(wb)))),
{
    wb.save_to_buffer().map_err(|e| e.to_string())
}

// ─── XLSX reading (calamine) ────────────────────────────────────────────────

#[verifier::external_type_specification]
#[verifier::external_body]
#[verifier::reject_recursive_types(T)]
pub struct ExCursor<T>(std::io::Cursor<T>);

#[verifier::external_type_specification]
#[verifier::external_body]
#[verifier::reject_recursive_types(RS)]
pub struct ExXlsxReader<RS>(calamine::Xlsx<RS>);

/// What reading one worksheet gives: the `Display` text of each cell, row by
/// row, or the reader's error as text.
pub type SheetRead = Result<Seq<Seq<Seq<char>>>, Seq<char>>;

/// The worksheets of a workbook that calamine has opened, in workbook
/// order: each one's name, and what `worksheet_range` gives for that name.
pub uninterp spec fn xlsx_sheets_of(wb: calamine::Xlsx<std::io::Cursor<Vec<u8>>>) -> Seq<(Seq<char>, SheetRead)>;

/// What calamine reads from the bytes of an XLSX file: the error of
/// `open_workbook_from_rs` as text, or the worksheets of the workbook it
/// opens, each with its name and what reading it gives.
pub uninterp spec fn xlsx_contents(bytes: Seq<u8>) -> Result<Seq<(Seq<char>, SheetRead)>, Seq<char>>;

/// `open_workbook_from_rs` of calamine on the bytes of an XLSX file, with
/// the error written as text. Claimed: what it gives is what
/// `xlsx_contents` names for the bytes, the workbook holding the worksheets
/// named there.
#[verifier::external_body]
pub(crate) fn xlsx_open(bytes: Vec<u8>) -> (res: Result<calamine::Xlsx<std::io::Cursor<Vec<u8>>>, String>)
    ensures
        match res {
            Ok(wb) => xlsx_contents(bytes@) == Ok::<_, Seq<char>>(xlsx_sheets_of(wb)),
            Err(m) => xlsx_contents(bytes@) == Err::<Seq<(Seq<char>, SheetRead)>, _>(m@),
        },
{
    calamine::open_workbook_from_rs(std::io::Cursor::new(bytes)).map_err(|e: calamine::XlsxError| e.to_string())
}

/// `Reader::sheet_names` of calamine: the names of the worksheets, in
/// workbook order. Claimed: they are the names `xlsx_sheets_of` holds.
#[verifier::external_body]
pub(crate) fn xlsx_sheet_names(wb: &calamine::Xlsx<std::io::Cursor<Vec<u8>>>) -> (names: Vec<String>)
    ensures
        names@.len() == xlsx_sheets_of(*wb).len(),
        forall|i: int| 0 <= i < names@.len() ==> #[trigger] names@[i]@ == xlsx_sheets_of(*wb)[i].0,
{
    calamine::Reader::sheet_names(wb)
}

/// `Reader::worksheet_range` of calamine, with each cell written as its
/// `Display` text, row by row, and the error written as text. Claimed: for
/// the name of a worksheet the result is what `xlsx_sheets_of` holds for
/// it; reading changes none of what the workbook holds.
#[verifier::external_body]
pub(crate) fn xlsx_sheet_cells(wb: &mut calamine::Xlsx<std::io::Cursor<Vec<u8>>>, name: &str) -> (res: Result<Vec<Vec<String>>, String>)
    ensures
        xlsx_sheets_of(*final(wb)) == xlsx_sheets_of(*old(wb)),
        forall|i: int|
            0 <= i < xlsx_sheets_of(*old(wb)).len() && #[trigger] xlsx_sheets_of(*old(wb))[i].0 == name@
                ==> match res {
                Ok(g) => xlsx_sheets_of(*old(wb))[i].1 == Ok::<_, Seq<char>>(grid_view(g@)),
                Err(m) => xlsx_sheets_of(*old(wb))[i].1 == Err::<Seq<Seq<Seq<char>>>, _>(m@),
            },
{
    match calamine::Reader::worksheet_range(wb, name) {
        Ok(range) => Ok(range.rows().map(|row| row.iter().map(|c| c.to_string()).collect()).collect()),
        Err(e) => Err(e.to_string()),
    }
}

// ─── UUID ────────────────────────────────────────────────────────────────────

/// `Uuid::new_v4().to_string()` of uuid: a random version-4 UUID in its
/// hyphenated lower-case form. Claimed: the text has that form's 36
/// characters.
#[verifier::external_body]
pub(crate) fn random_uuid_text() -> (t: String)
    ensures
        t@.len() == 36,
{
    uuid::Uuid::new_v4().to_string()
}

// ─── clock, memory wiping ────────────────────────────────────────────────────

/// Seconds since the Unix epoch now (`chrono::Utc::now().timestamp()`).
/// Nothing is claimed of the value.
#[verifier::external_body]
pub(crate) fn unix_now() -> (t: i64) {
    chrono::Utc::now().timestamp()
}

/// The current UTC time as `chrono::Utc::now().format("%Y-%m-%d %H:%M:%S")`
/// writes it. Nothing is claimed of the text.
#[verifier::external_body]
pub(crate) fn utc_now_text() -> (t: String) {
    chrono::Utc::now().format("%Y-%m-%d %H:%M:%S").to_string()
}

/// `Zeroize::zeroize` of the zeroize crate on a `String`: the bytes are
/// overwritten and the string is cleared. Claimed: it is empty afterwards.
#[verifier::external_body]
pub(crate) fn wipe_string(s: &mut String)
    ensures
        final(s)@.len() == 0,
{
    s.zeroize();
}

} // verus!
