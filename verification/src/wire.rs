//! Byte layouts of the two sealed formats:
//!
//! * a password ciphertext: `[ephemeral key length: 2 bytes, big-endian]
//!   [ephemeral public key][nonce: 12 bytes][AES-GCM ciphertext]`;
//! * a sealed book key: `[nonce: 12 bytes][AES-GCM ciphertext]`.
use crate::crypto::CryptoError;
use vstd::prelude::*;

verus! {

/// Length in bytes of an AES-GCM nonce.
pub const NONCE_SIZE: usize = 12;

/// Length in bytes of a compressed P-256 point, the shortest ephemeral key
/// a ciphertext may carry.
pub const COMPRESSED_POINT_SIZE: usize = 33;

/// Big-endian encoding of a length below 2^16.
pub open spec fn u16_be(n: nat) -> Seq<u8> {
    seq![(n / 256) as u8, (n % 256) as u8]
}

/// The bytes of a password ciphertext made of an ephemeral key, a nonce and
/// the AES-GCM output.
pub open spec fn ecies_frame(epk: Seq<u8>, nonce: Seq<u8>, ct: Seq<u8>) -> Seq<u8> {
    u16_be(epk.len()) + epk + nonce + ct
}

/// How a password ciphertext is cut into ephemeral key, nonce and AES-GCM
/// output, or why it is refused.
pub open spec fn ecies_unframe(data: Seq<u8>) -> Result<(Seq<u8>, Seq<u8>, Seq<u8>), CryptoError> {
    if data.len() < 2 + COMPRESSED_POINT_SIZE + NONCE_SIZE {
        Err(CryptoError::CiphertextTooShort)
    } else {
        let n = data[0] as int * 256 + data[1] as int;
        if data.len() < 2 + n + NONCE_SIZE {
            Err(CryptoError::CiphertextTooShortForKey)
        } else {
            Ok(
                (
                    data.subrange(2, 2 + n),
                    data.subrange(2 + n, 2 + n + NONCE_SIZE),
                    data.subrange(2 + n + NONCE_SIZE, data.len() as int),
                ),
            )
        }
    }
}

/// The bytes of a sealed book key.
pub open spec fn sealed_key_frame(nonce: Seq<u8>, ct: Seq<u8>) -> Seq<u8> {
    nonce + ct
}

/// How a sealed book key is cut into nonce and AES-GCM output, or why it
/// is refused.
pub open spec fn sealed_key_unframe(data: Seq<u8>) -> Result<(Seq<u8>, Seq<u8>), CryptoError> {
    if data.len() < NONCE_SIZE + 1 {
        Err(CryptoError::SealedKeyTooShort)
    } else {
        Ok((data.subrange(0, NONCE_SIZE as int), data.subrange(NONCE_SIZE as int, data.len() as int)))
    }
}

/// Cutting a framed ciphertext gives back its parts, whenever the frame is
/// at least as long as the shortest frame the reader accepts.
pub proof fn lemma_ecies_frame_roundtrip(epk: Seq<u8>, nonce: Seq<u8>, ct: Seq<u8>)
    requires
        epk.len() < 0x10000,
        nonce.len() == NONCE_SIZE,
        epk.len() + ct.len() >= COMPRESSED_POINT_SIZE,
    ensures
        ecies_unframe(ecies_frame(epk, nonce, ct)) == Ok::<_, CryptoError>((epk, nonce, ct)),
{
    let data = ecies_frame(epk, nonce, ct);
    let n = epk.len() as int;
    assert(data[0] == (n / 256) as u8);
    assert(data[1] == (n % 256) as u8);
    assert(data[0] as int * 256 + data[1] as int == n);
    assert(data.subrange(2, 2 + n) =~= epk);
    assert(data.subrange(2 + n, 2 + n + NONCE_SIZE) =~= nonce);
    assert(data.subrange(2 + n + NONCE_SIZE, data.len() as int) =~= ct);
}

/// Cutting a sealed key gives back its nonce and ciphertext, whenever the
/// ciphertext is not empty.
pub proof fn lemma_sealed_key_roundtrip(nonce: Seq<u8>, ct: Seq<u8>)
    requires
        nonce.len() == NONCE_SIZE,
        ct.len() >= 1,
    ensures
        sealed_key_unframe(sealed_key_frame(nonce, ct)) == Ok::<_, CryptoError>((nonce, ct)),
{
    let data = sealed_key_frame(nonce, ct);
    assert(data.subrange(0, NONCE_SIZE as int) =~= nonce);
    assert(data.subrange(NONCE_SIZE as int, data.len() as int) =~= ct);
}

/// Writes a password ciphertext frame.
pub fn frame_ecies(epk: &[u8], nonce: &[u8], ct: &[u8]) -> (data: Vec<u8>)
    requires
        epk@.len() < 0x10000,
    ensures
        data@ == ecies_frame(epk@, nonce@, ct@),
{
    let n = epk.len();
    let mut data: Vec<u8> = Vec::new();
    data.push((n / 256) as u8);
    data.push((n % 256) as u8);
    append_bytes(&mut data, epk);
    append_bytes(&mut data, nonce);
    append_bytes(&mut data, ct);
    assert(data@ =~= ecies_frame(epk@, nonce@, ct@));
    data
}

/// Reads a password ciphertext frame.
pub fn unframe_ecies(data: &[u8]) -> (parts: Result<(Vec<u8>, Vec<u8>, Vec<u8>), CryptoError>)
    ensures
        match parts {
            Ok((epk, nonce, ct)) => ecies_unframe(data@) == Ok::<_, CryptoError>((epk@, nonce@, ct@)),
            Err(e) => ecies_unframe(data@) == Err::<(Seq<u8>, Seq<u8>, Seq<u8>), _>(e),
        },
{
    if data.len() < 2 + COMPRESSED_POINT_SIZE + NONCE_SIZE {
        return Err(CryptoError::CiphertextTooShort);
    }
    let n = (data[0] as usize) * 256 + (data[1] as usize);
    if data.len() < 2 + n + NONCE_SIZE {
        return Err(CryptoError::CiphertextTooShortForKey);
    }
    let epk = vstd::slice::slice_to_vec(vstd::slice::slice_subrange(data, 2, 2 + n));
    let nonce = vstd::slice::slice_to_vec(vstd::slice::slice_subrange(data, 2 + n, 2 + n + NONCE_SIZE));
    let ct = vstd::slice::slice_to_vec(vstd::slice::slice_subrange(data, 2 + n + NONCE_SIZE, data.len()));
    Ok((epk, nonce, ct))
}

/// Writes a sealed key frame.
pub fn frame_sealed_key(nonce: &[u8], ct: &[u8]) -> (data: Vec<u8>)
    ensures
        data@ == sealed_key_frame(nonce@, ct@),
{
    let mut data: Vec<u8> = Vec::new();
    append_bytes(&mut data, nonce);
    append_bytes(&mut data, ct);
    assert(data@ =~= sealed_key_frame(nonce@, ct@));
    data
}

/// Reads a sealed key frame.
pub fn unframe_sealed_key(data: &[u8]) -> (parts: Result<(Vec<u8>, Vec<u8>), CryptoError>)
    ensures
        match parts {
            Ok((nonce, ct)) => sealed_key_unframe(data@) == Ok::<_, CryptoError>((nonce@, ct@)),
            Err(e) => sealed_key_unframe(data@) == Err::<(Seq<u8>, Seq<u8>), _>(e),
        },
{
    if data.len() < NONCE_SIZE + 1 {
        return Err(CryptoError::SealedKeyTooShort);
    }
    let nonce = vstd::slice::slice_to_vec(vstd::slice::slice_subrange(data, 0, NONCE_SIZE));
    let ct = vstd::slice::slice_to_vec(vstd::slice::slice_subrange(data, NONCE_SIZE, data.len()));
    Ok((nonce, ct))
}

/// Appends `more` to `out`.
pub fn append_bytes(out: &mut Vec<u8>, more: &[u8])
    ensures
        final(out)@ == old(out)@ + more@,
{
    let ghost start = out@;
    let n = more.len();
    for i in 0..n
        invariant
            n == more@.len(),
            out@ == start + more@.take(i as int),
    {
        out.push(more[i]);
        assert(more@.take(i + 1) =~= more@.take(i as int).push(more@[i as int]));
    }
    assert(more@.take(n as int) =~= more@);
}

} // verus!
