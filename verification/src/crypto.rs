//! Password encryption (ECIES over P-256: ECDH, HKDF-SHA256, AES-256-GCM)
//! and the master key that seals each book's private key.
use crate::primitives::{
    aes256gcm_decrypt, aes256gcm_encrypt, aes256gcm_open, aes256gcm_seal, base64_decode,
    base64_encode, base64_standard_decode, base64_standard_encode, hkdf_sha256, hkdf_sha256_expand,
    os_random_bytes, p256_diffie_hellman, p256_generate, p256_point_accepted, p256_public_from_pem,
    p256_public_of, p256_public_pem, p256_public_read_pem, p256_public_to_pem, p256_secret_accepted,
    p256_secret_from_pem, p256_secret_pem, p256_secret_read_pem, p256_secret_to_pem,
    p256_shared_secret, is_base64_char, pem_armored, utf8_string,
};
use crate::text::{concat, decimal, decimal_of_u64, trim, trimmed};
use crate::wire::{
    ecies_frame, ecies_unframe, frame_ecies, frame_sealed_key, lemma_ecies_frame_roundtrip,
    lemma_sealed_key_roundtrip, sealed_key_frame, sealed_key_unframe, unframe_ecies,
    unframe_sealed_key, COMPRESSED_POINT_SIZE, NONCE_SIZE,
};
use vstd::prelude::*;
use vstd::string::*;
use vstd::utf8::*;

verus! {

/// Length in bytes of the master key.
pub const MASTER_KEY_BYTES: usize = 32;

/// Largest plaintext AES-GCM seals (2^36 bytes).
pub const AES_GCM_MAX_PLAINTEXT: u64 = 0x10_0000_0000;

/// Why an encryption, a decryption or a key conversion failed.
#[derive(Debug, Clone, Copy, PartialEq, Eq, Structural)]
pub enum CryptoError {
    /// A password ciphertext is not base64.
    CiphertextBase64,
    /// A password ciphertext is shorter than the shortest frame.
    CiphertextTooShort,
    /// A password ciphertext is shorter than its key length field says.
    CiphertextTooShortForKey,
    /// The ephemeral key inside a ciphertext is not a P-256 point.
    EphemeralKeyInvalid,
    /// HKDF refused the requested output length.
    KeyDerivation,
    /// AES-GCM refused to seal a password.
    AesEncrypt,
    /// AES-GCM refused a password ciphertext (wrong key or tampered data).
    AesDecrypt,
    /// A secret key could not be written as PEM.
    SecretKeyToPem,
    /// A public key could not be written as PEM.
    PublicKeyToPem,
    /// A PEM text is not a P-256 secret key.
    SecretKeyFromPem,
    /// A PEM text is not a P-256 public key.
    PublicKeyFromPem,
    /// A sealed book key is not base64.
    SealedKeyBase64,
    /// A sealed book key is shorter than a nonce and one byte.
    SealedKeyTooShort,
    /// AES-GCM refused to seal a book key.
    MasterEncrypt,
    /// AES-GCM refused a sealed book key (wrong master key or tampered data).
    MasterDecrypt,
    /// An unsealed book key is not UTF-8 text.
    PrivateKeyNotUtf8,
    /// A key file does not hold base64.
    KeyFileBase64,
    /// A key file holds a key of the given length instead of 32 bytes.
    KeyFileLength(usize),
}

/// The message shown for each failure.
pub open spec fn crypto_error_text(e: CryptoError) -> Seq<char> {
    match e {
        CryptoError::CiphertextBase64 => "Failed to decode base64 ciphertext"@,
        CryptoError::CiphertextTooShort => "Ciphertext too short"@,
        CryptoError::CiphertextTooShortForKey => "Ciphertext too short for EPK"@,
        CryptoError::EphemeralKeyInvalid => "Failed to parse ephemeral public key"@,
        CryptoError::KeyDerivation => "HKDF expand failed"@,
        CryptoError::AesEncrypt => "AES encryption failed: Error"@,
        CryptoError::AesDecrypt => "AES decryption failed: Error"@,
        CryptoError::SecretKeyToPem => "Failed to serialize secret key to PEM"@,
        CryptoError::PublicKeyToPem => "Failed to serialize public key to PEM"@,
        CryptoError::SecretKeyFromPem => "Failed to deserialize secret key from PEM"@,
        CryptoError::PublicKeyFromPem => "Failed to deserialize public key from PEM"@,
        CryptoError::SealedKeyBase64 => "Failed to decode encrypted private key"@,
        CryptoError::SealedKeyTooShort => "Encrypted private key too short"@,
        CryptoError::MasterEncrypt => "Master key encrypt failed: Error"@,
        CryptoError::MasterDecrypt => "Master key decrypt failed: Error"@,
        CryptoError::PrivateKeyNotUtf8 => "Decrypted private key is not valid UTF-8"@,
        CryptoError::KeyFileBase64 => "Master key file: invalid base64"@,
        CryptoError::KeyFileLength(n) => "Master key file: expected 32 bytes, got "@ + decimal(
            n as int,
        ),
    }
}

impl CryptoError {
    /// The message of this failure.
    pub fn message(&self) -> (m: String)
        ensures
            m@ == crypto_error_text(*self),
    {
        match self {
            CryptoError::CiphertextBase64 => String::from_str("Failed to decode base64 ciphertext"),
            CryptoError::CiphertextTooShort => String::from_str("Ciphertext too short"),
            CryptoError::CiphertextTooShortForKey => String::from_str("Ciphertext too short for EPK"),
            CryptoError::EphemeralKeyInvalid => String::from_str("Failed to parse ephemeral public key"),
            CryptoError::KeyDerivation => String::from_str("HKDF expand failed"),
            CryptoError::AesEncrypt => String::from_str("AES encryption failed: Error"),
            CryptoError::AesDecrypt => String::from_str("AES decryption failed: Error"),
            CryptoError::SecretKeyToPem => String::from_str("Failed to serialize secret key to PEM"),
            CryptoError::PublicKeyToPem => String::from_str("Failed to serialize public key to PEM"),
            CryptoError::SecretKeyFromPem => String::from_str("Failed to deserialize secret key from PEM"),
            CryptoError::PublicKeyFromPem => String::from_str("Failed to deserialize public key from PEM"),
            CryptoError::SealedKeyBase64 => String::from_str("Failed to decode encrypted private key"),
            CryptoError::SealedKeyTooShort => String::from_str("Encrypted private key too short"),
            CryptoError::MasterEncrypt => String::from_str("Master key encrypt failed: Error"),
            CryptoError::MasterDecrypt => String::from_str("Master key decrypt failed: Error"),
            CryptoError::PrivateKeyNotUtf8 => String::from_str("Decrypted private key is not valid UTF-8"),
            CryptoError::KeyFileBase64 => String::from_str("Master key file: invalid base64"),
            CryptoError::KeyFileLength(n) => {
                let digits = decimal_of_u64(*n as u64);
                concat("Master key file: expected 32 bytes, got ", digits.as_str())
            },
        }
    }
}

/// The HKDF `info` of the password cipher key.
pub open spec fn ecies_info() -> Seq<u8> {
    encode_utf8("ecc-aes-gcm-key"@)
}

/// The HKDF `info` of the master key.
pub open spec fn master_info() -> Seq<u8> {
    encode_utf8("collpasswd-master-key"@)
}

/// The AES key that a secret scalar and a point agree on.
pub open spec fn ecies_key(secret: Seq<u8>, point: Seq<u8>) -> Seq<u8> {
    hkdf_sha256(None, p256_shared_secret(secret, point), ecies_info(), 32)
}

/// The ciphertext text that sealing `plaintext` for the public key `point`
/// gives with the ephemeral scalar `eph` and the nonce `nonce`.
pub open spec fn ecies_sealed(point: Seq<u8>, plaintext: Seq<u8>, eph: Seq<u8>, nonce: Seq<u8>) -> Seq<char> {
    base64_standard_encode(
        ecies_frame(
            p256_public_of(eph),
            nonce,
            aes256gcm_seal(ecies_key(eph, point), nonce, plaintext),
        ),
    )
}

/// What decrypting a password ciphertext with the secret scalar `secret`
/// gives: the steps `EccCrypto::decrypt` takes, each with its failure.
pub open spec fn ecies_open(secret: Seq<u8>, text: Seq<char>) -> Result<Seq<u8>, CryptoError> {
    match base64_standard_decode(text) {
        None => Err(CryptoError::CiphertextBase64),
        Some(data) => match ecies_unframe(data) {
            Err(e) => Err(e),
            Ok((epk, nonce, ct)) => if !p256_point_accepted(epk) {
                Err(CryptoError::EphemeralKeyInvalid)
            } else {
                match aes256gcm_open(ecies_key(secret, epk), nonce, ct) {
                    Some(p) => Ok(p),
                    None => Err(CryptoError::AesDecrypt),
                }
            },
        },
    }
}

/// Whether the base64 text `text` decodes to a password frame for a
/// plaintext of `len` bytes: the two-byte length 33 of a compressed
/// ephemeral point (whose first byte is 2 or 3), the point, the 12-byte
/// nonce, and the ciphertext with its 16-byte tag.
pub open spec fn ecies_layout(text: Seq<char>, len: nat) -> bool {
    match base64_standard_decode(text) {
        Some(d) => d.len() == 2 + COMPRESSED_POINT_SIZE + NONCE_SIZE + len + 16 && d[0] == 0 && d[1]
            == 33 && (d[2] == 2 || d[2] == 3),
        None => false,
    }
}

/// Whether the base64 text `text` decodes to a sealed book key for a PEM of
/// `len` bytes: the 12-byte nonce, then the ciphertext with its 16-byte tag.
pub open spec fn sealed_key_layout(text: Seq<char>, len: nat) -> bool {
    match base64_standard_decode(text) {
        Some(d) => d.len() == NONCE_SIZE + len + 16,
        None => false,
    }
}

/// A P-256 secret key, held as its 32-byte big-endian scalar.
pub struct EccSecretKey {
    scalar: Vec<u8>,
}

impl EccSecretKey {
    #[verifier::type_invariant]
    spec fn well_formed(self) -> bool {
        self.scalar@.len() == 32 && p256_secret_accepted(self.scalar@)
    }
}

impl View for EccSecretKey {
    type V = Seq<u8>;

    closed spec fn view(&self) -> Seq<u8> {
        self.scalar@
    }
}

/// A P-256 public key, held as its 33-byte compressed SEC1 encoding.
pub struct EccPublicKey {
    point: Vec<u8>,
}

impl EccPublicKey {
    #[verifier::type_invariant]
    spec fn well_formed(self) -> bool {
        self.point@.len() == 33 && p256_point_accepted(self.point@)
    }
}

impl View for EccPublicKey {
    type V = Seq<u8>;

    closed spec fn view(&self) -> Seq<u8> {
        self.point@
    }
}

/// The ECIES scheme used for every password: P-256 ECDH with a fresh
/// ephemeral key, HKDF-SHA256, AES-256-GCM.
#[derive(Debug, Clone)]
pub struct EccCrypto;

impl EccCrypto {
    /// The name of the scheme, as it is displayed.
    pub fn display_text(&self) -> (t: String)
        ensures
            t@ == "EccCrypto(P-256)"@,
    {
        String::from_str("EccCrypto(P-256)")
    }

    /// A fresh key pair: the public key is that of the secret key.
    pub fn generate_keypair() -> (res: Result<(EccSecretKey, EccPublicKey), CryptoError>)
        ensures
            res matches Ok((sk, pk)) && pk@ == p256_public_of(sk@) && p256_secret_accepted(sk@)
                && p256_point_accepted(pk@),
    {
        let (scalar, point) = p256_generate();
        Ok((EccSecretKey { scalar }, EccPublicKey { point }))
    }

    /// The PKCS#8 PEM text of a secret key; reading it back gives the key.
    /// Writing a valid key never fails.
    pub fn secret_key_to_pem(sk: &EccSecretKey) -> (res: Result<String, CryptoError>)
        ensures
            res is Ok,
            match res {
                Ok(p) => p@ == p256_secret_pem(sk@) && p256_secret_from_pem(p@) == Some(sk@)
                    && pem_armored(p@) && encode_utf8(p@).len() <= 4096,
                Err(e) => e == CryptoError::SecretKeyToPem,
            },
    {
        proof {
            use_type_invariant(sk);
        }
        match p256_secret_to_pem(sk.scalar.as_slice()) {
            Some(p) => Ok(p),
            None => Err(CryptoError::SecretKeyToPem),
        }
    }

    /// The SubjectPublicKeyInfo PEM text of a public key; reading it back
    /// gives the key. Writing a valid key never fails.
    pub fn public_key_to_pem(pk: &EccPublicKey) -> (res: Result<String, CryptoError>)
        ensures
            res is Ok,
            match res {
                Ok(p) => p@ == p256_public_pem(pk@) && p256_public_from_pem(p@) == Some(pk@)
                    && pem_armored(p@),
                Err(e) => e == CryptoError::PublicKeyToPem,
            },
    {
        proof {
            use_type_invariant(pk);
        }
        match p256_public_to_pem(pk.point.as_slice()) {
            Some(p) => Ok(p),
            None => Err(CryptoError::PublicKeyToPem),
        }
    }

    /// Reads a secret key from PKCS#8 PEM text.
    pub fn secret_key_from_pem(pem: &str) -> (res: Result<EccSecretKey, CryptoError>)
        ensures
            match res {
                Ok(sk) => p256_secret_from_pem(pem@) == Some(sk@) && p256_secret_accepted(sk@),
                Err(e) => p256_secret_from_pem(pem@) is None && e == CryptoError::SecretKeyFromPem,
            },
    {
        match p256_secret_read_pem(pem) {
            Some(scalar) => Ok(EccSecretKey { scalar }),
            None => Err(CryptoError::SecretKeyFromPem),
        }
    }

    /// Reads a public key from SubjectPublicKeyInfo PEM text.
    pub fn public_key_from_pem(pem: &str) -> (res: Result<EccPublicKey, CryptoError>)
        ensures
            match res {
                Ok(pk) => p256_public_from_pem(pem@) == Some(pk@) && p256_point_accepted(pk@),
                Err(e) => p256_public_from_pem(pem@) is None && e == CryptoError::PublicKeyFromPem,
            },
    {
        match p256_public_read_pem(pem) {
            Some(point) => Ok(EccPublicKey { point }),
            None => Err(CryptoError::PublicKeyFromPem),
        }
    }

    /// Seals `plaintext` for the holder of the secret key of `pk`, as base64
    /// text. It fails only for a plaintext beyond what AES-GCM seals, and
    /// whatever ephemeral key and nonce were drawn, the secret key of `pk`
    /// decrypts the result back to `plaintext`.
    pub fn encrypt(pk: &EccPublicKey, plaintext: &[u8]) -> (res: Result<String, CryptoError>)
        ensures
            res is Ok <==> plaintext@.len() <= AES_GCM_MAX_PLAINTEXT,
            res matches Err(e) ==> e == CryptoError::AesEncrypt,
            res matches Ok(c) ==> exists|eph: Seq<u8>, nonce: Seq<u8>|
                p256_secret_accepted(eph) && nonce.len() == NONCE_SIZE && c@ == ecies_sealed(
                    pk@,
                    plaintext@,
                    eph,
                    nonce,
                ),
            res matches Ok(c) ==> forall|s: Seq<u8>|
                p256_secret_accepted(s) && p256_public_of(s) == pk@ ==> #[trigger] ecies_open(s, c@)
                    == Ok::<_, CryptoError>(plaintext@),
            res matches Ok(c) ==> ecies_layout(c@, plaintext@.len()),
    {
        proof {
            use_type_invariant(pk);
        }
        let (eph, epk) = p256_generate();
        let shared = match p256_diffie_hellman(eph.as_slice(), pk.point.as_slice()) {
            Some(s) => s,
            None => return Err(CryptoError::EphemeralKeyInvalid),
        };
        let key = match hkdf_sha256_expand(None, shared.as_slice(), "ecc-aes-gcm-key".as_bytes(), 32) {
            Some(k) => k,
            None => return Err(CryptoError::KeyDerivation),
        };
        let nonce = os_random_bytes(NONCE_SIZE);
        let ct = match aes256gcm_encrypt(key.as_slice(), nonce.as_slice(), plaintext) {
            Some(c) => c,
            None => return Err(CryptoError::AesEncrypt),
        };
        let data = frame_ecies(epk.as_slice(), nonce.as_slice(), ct.as_slice());
        let text = base64_encode(data.as_slice());
        proof {
            lemma_ecies_frame_roundtrip(epk@, nonce@, ct@);
            assert(data@[2] == epk@[0]);
            assert(key@ == ecies_key(eph@, pk@));
            assert(text@ == ecies_sealed(pk@, plaintext@, eph@, nonce@));
            assert forall|s: Seq<u8>|
                p256_secret_accepted(s) && p256_public_of(s) == pk@ implies #[trigger] ecies_open(
                s,
                text@,
            ) == Ok::<_, CryptoError>(plaintext@) by {
                assert(p256_shared_secret(s, epk@) == p256_shared_secret(eph@, p256_public_of(s)));
                assert(ecies_key(s, epk@) == key@);
            }
        }
        Ok(text)
    }

    /// Decrypts base64 ciphertext text with a secret key.
    pub fn decrypt(sk: &EccSecretKey, encrypted_b64: &str) -> (res: Result<Vec<u8>, CryptoError>)
        ensures
            p256_secret_accepted(sk@),
            match res {
                Ok(p) => ecies_open(sk@, encrypted_b64@) == Ok::<_, CryptoError>(p@),
                Err(e) => ecies_open(sk@, encrypted_b64@) == Err::<Seq<u8>, _>(e),
            },
    {
        proof {
            use_type_invariant(sk);
        }
        let data = match base64_decode(encrypted_b64) {
            Some(d) => d,
            None => return Err(CryptoError::CiphertextBase64),
        };
        let (epk, nonce, ct) = match unframe_ecies(data.as_slice()) {
            Ok(parts) => parts,
            Err(e) => return Err(e),
        };
        let shared = match p256_diffie_hellman(sk.scalar.as_slice(), epk.as_slice()) {
            Some(s) => s,
            None => return Err(CryptoError::EphemeralKeyInvalid),
        };
        let key = match hkdf_sha256_expand(None, shared.as_slice(), "ecc-aes-gcm-key".as_bytes(), 32) {
            Some(k) => k,
            None => return Err(CryptoError::KeyDerivation),
        };
        match aes256gcm_decrypt(key.as_slice(), nonce.as_slice(), ct.as_slice()) {
            Some(p) => Ok(p),
            None => Err(CryptoError::AesDecrypt),
        }
    }
}

/// What unsealing a book key with master key bytes `key` gives: the steps
/// `MasterKey::decrypt_private_key` takes, each with its failure.
pub open spec fn master_open(key: Seq<u8>, text: Seq<char>) -> Result<Seq<char>, CryptoError> {
    match base64_standard_decode(text) {
        None => Err(CryptoError::SealedKeyBase64),
        Some(data) => match sealed_key_unframe(data) {
            Err(e) => Err(e),
            Ok((nonce, ct)) => match aes256gcm_open(key, nonce, ct) {
                None => Err(CryptoError::MasterDecrypt),
                Some(p) => if valid_utf8(p) {
                    Ok(decode_utf8(p))
                } else {
                    Err(CryptoError::PrivateKeyNotUtf8)
                },
            },
        },
    }
}

/// Law: a sealed book key is its 12-byte nonce followed by the AES-GCM
/// ciphertext, in base64: any text that decodes to a nonce and then a
/// non-empty ciphertext which the key opens to the UTF-8 bytes of a PEM
/// unseals to that PEM.
pub proof fn law_sealed_key_is_nonce_then_ciphertext(key: Seq<u8>, nonce: Seq<u8>, ct: Seq<u8>, text: Seq<char>, pem: Seq<char>)
    requires
        nonce.len() == 12,
        ct.len() >= 1,
        base64_standard_decode(text) == Some(nonce + ct),
        aes256gcm_open(key, nonce, ct) == Some(encode_utf8(pem)),
    ensures
        sealed_key_frame(nonce, ct) == nonce + ct,
        master_open(key, text) == Ok::<_, CryptoError>(pem),
{
    let data = nonce + ct;
    assert(data.subrange(0, 12) =~= nonce);
    assert(data.subrange(12, data.len() as int) =~= ct);
    encode_utf8_valid_utf8(pem);
    encode_utf8_decode_utf8(pem);
}

/// What reading a master key from key-file text gives.
pub open spec fn master_key_from_text(text: Seq<char>) -> Result<Seq<u8>, CryptoError> {
    match base64_standard_decode(trimmed(text)) {
        None => Err(CryptoError::KeyFileBase64),
        Some(d) => if d.len() != MASTER_KEY_BYTES {
            Err(CryptoError::KeyFileLength(d.len() as usize))
        } else {
            Ok(d)
        },
    }
}

/// The 256-bit key that seals each book's private key. It is derived from
/// the administrator's password and a stored salt, and lives only in memory.
#[derive(Clone)]
pub struct MasterKey([u8; 32]);

impl View for MasterKey {
    type V = Seq<u8>;

    closed spec fn view(&self) -> Seq<u8> {
        self.0@
    }
}

/// Copies exactly `N` bytes into an array.
fn to_array<const N: usize>(bytes: &[u8]) -> (a: [u8; N])
    requires
        bytes@.len() == N,
    ensures
        a@ == bytes@,
{
    let mut a = [0u8; N];
    for i in 0..N
        invariant
            bytes@.len() == N,
            a@.len() == N,
            forall|k: int| 0 <= k < i ==> a@[k] == bytes@[k],
    {
        a[i] = bytes[i];
    }
    assert(a@ =~= bytes@);
    a
}

impl MasterKey {
    /// How the key is shown in diagnostics: never its bytes.
    pub fn debug_text(&self) -> (t: String)
        ensures
            t@ == "MasterKey { .. }"@,
    {
        String::from_str("MasterKey { .. }")
    }

    /// Derives the key from a password and a salt with HKDF-SHA256.
    pub fn derive_from_password(password: &str, salt: &[u8]) -> (k: MasterKey)
        ensures
            k@ == hkdf_sha256(Some(salt@), encode_utf8(password@), master_info(), 32),
    {
        let okm = hkdf_sha256_expand(Some(salt), password.as_bytes(), "collpasswd-master-key".as_bytes(), MASTER_KEY_BYTES);
        match okm {
            Some(k) => MasterKey(to_array(k.as_slice())),
            None => {
                proof {
                    assert(false);
                }
                MasterKey([0u8; 32])
            },
        }
    }

    /// A fresh random 16-byte salt for key derivation.
    pub fn generate_salt() -> (salt: [u8; 16]) {
        let bytes = os_random_bytes(16);
        to_array(bytes.as_slice())
    }

    /// Reads the key from the text of a key file: base64 of exactly 32 bytes,
    /// with surrounding whitespace ignored.
    pub fn from_key_text(text: &str) -> (res: Result<MasterKey, CryptoError>)
        ensures
            match res {
                Ok(k) => master_key_from_text(text@) == Ok::<_, CryptoError>(k@),
                Err(e) => master_key_from_text(text@) == Err::<Seq<u8>, _>(e),
            },
    {
        let t = trim(text);
        let decoded = match base64_decode(t.as_str()) {
            Some(d) => d,
            None => return Err(CryptoError::KeyFileBase64),
        };
        if decoded.len() != MASTER_KEY_BYTES {
            return Err(CryptoError::KeyFileLength(decoded.len()));
        }
        Ok(MasterKey(to_array(decoded.as_slice())))
    }

    /// Seals a PEM-encoded private key as base64 text. It fails only for a
    /// text beyond what AES-GCM seals, and whatever nonce was drawn,
    /// `decrypt_private_key` with the same master key gives the PEM back.
    pub fn encrypt_private_key(&self, pem: &str) -> (res: Result<String, CryptoError>)
        ensures
            res is Ok <==> encode_utf8(pem@).len() <= AES_GCM_MAX_PLAINTEXT,
            res matches Err(e) ==> e == CryptoError::MasterEncrypt,
            res matches Ok(c) ==> exists|nonce: Seq<u8>|
                nonce.len() == NONCE_SIZE && c@ == base64_standard_encode(
                    sealed_key_frame(nonce, aes256gcm_seal(self@, nonce, encode_utf8(pem@))),
                ),
            res matches Ok(c) ==> master_open(self@, c@) == Ok::<_, CryptoError>(pem@),
            res matches Ok(c) ==> sealed_key_layout(c@, encode_utf8(pem@).len()),
            res matches Ok(c) ==> forall|i: int| 0 <= i < c@.len() ==> is_base64_char(#[trigger] c@[i]),
    {
        let nonce = os_random_bytes(NONCE_SIZE);
        let ct = match aes256gcm_encrypt(self.0.as_slice(), nonce.as_slice(), pem.as_bytes()) {
            Some(c) => c,
            None => return Err(CryptoError::MasterEncrypt),
        };
        let data = frame_sealed_key(nonce.as_slice(), ct.as_slice());
        let text = base64_encode(data.as_slice());
        proof {
            lemma_sealed_key_roundtrip(nonce@, ct@);
            encode_utf8_valid_utf8(pem@);
            encode_utf8_decode_utf8(pem@);
        }
        Ok(text)
    }

    /// Unseals a book's private key, giving its PEM text.
    pub fn decrypt_private_key(&self, encrypted_b64: &str) -> (res: Result<String, CryptoError>)
        ensures
            match res {
                Ok(p) => master_open(self@, encrypted_b64@) == Ok::<_, CryptoError>(p@),
                Err(e) => master_open(self@, encrypted_b64@) == Err::<Seq<char>, _>(e),
            },
    {
        let data = match base64_decode(encrypted_b64) {
            Some(d) => d,
            None => return Err(CryptoError::SealedKeyBase64),
        };
        let (nonce, ct) = match unframe_sealed_key(data.as_slice()) {
            Ok(parts) => parts,
            Err(e) => return Err(e),
        };
        let plain = match aes256gcm_decrypt(self.0.as_slice(), nonce.as_slice(), ct.as_slice()) {
            Some(p) => p,
            None => return Err(CryptoError::MasterDecrypt),
        };
        match utf8_string(plain) {
            Some(s) => Ok(s),
            None => Err(CryptoError::PrivateKeyNotUtf8),
        }
    }
}

} // verus!
