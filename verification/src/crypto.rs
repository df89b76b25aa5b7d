//! Low-level cryptographic operations.
//!
//! This module and `keys` are the only two places in the crate that call
//! `ring` directly. All other modules encrypt and decrypt exclusively
//! through the functions exposed here.
//!
//! Primitive choices:
//! - **Cipher**: AES-256-GCM (authenticated encryption)
//! - **Nonce**: 96-bit (12 bytes), generated fresh per operation
//! - **Key size**: 256 bits (32 bytes)

use vstd::prelude::*;

use crate::error::HexvaultError;

verus! {

/// Size of the nonce in bytes (96 bits).
pub const NONCE_LEN: usize = 12;

/// Size of a master or derived key in bytes (256 bits).
pub const KEY_LEN: usize = 32;

/// Size of the GCM authentication tag in bytes.
pub const TAG_LEN: usize = 16;

/// What AES-256-GCM decryption returns for a key, a nonce, and a
/// ciphertext-plus-tag input: the plaintext when the authentication tag
/// verifies, nothing otherwise. The result is a function of these three
/// values alone.
pub uninterp spec fn gcm_open_bytes(key: Seq<u8>, nonce: Seq<u8>, ciphertext: Seq<u8>) -> Option<
    Seq<u8>,
>;

/// What a ciphertext blob in this crate's wire layout decrypts to under a
/// key. The layout is the one `encrypt` produces: the first `NONCE_LEN`
/// bytes are the nonce, the rest is ciphertext followed by the tag.
pub open spec fn spec_open_blob(key: Seq<u8>, blob: Seq<u8>) -> Option<Seq<u8>> {
    if blob.len() < NONCE_LEN {
        None
    } else {
        gcm_open_bytes(key, blob.take(NONCE_LEN as int), blob.skip(NONCE_LEN as int))
    }
}

/// Relies on ring's `SystemRandom::fill`: fills a buffer with bytes from
/// the system's secure random source, or reports that the source failed.
#[verifier::external_body]
pub(crate) fn random_bytes<const N: usize>() -> (r: Result<[u8; N], HexvaultError>)
    ensures
        match r {
            Ok(_) => true,
            Err(e) => e == HexvaultError::RandomnessFailure,
        },
{
    let rng = ring::rand::SystemRandom::new();
    let mut buf = [0u8; N];
    match ring::rand::SecureRandom::fill(&rng, &mut buf) {
        Ok(()) => Ok(buf),
        Err(_) => Err(HexvaultError::RandomnessFailure),
    }
}

/// Relies on ring's AES-256-GCM `seal_in_place_append_tag`: the returned
/// bytes are the ciphertext followed by the 16-byte tag, and opening them
/// with the same key and nonce yields the plaintext again. It fails only
/// when the plaintext is longer than AES-GCM admits.
#[verifier::external_body]
fn aead_seal(key: &[u8; KEY_LEN], nonce: &[u8], plaintext: &[u8]) -> (r: Result<Vec<u8>, HexvaultError>)
    requires
        nonce@.len() == NONCE_LEN,
    ensures
        match r {
            Ok(sealed) => sealed@.len() == plaintext@.len() + TAG_LEN && gcm_open_bytes(
                key@,
                nonce@,
                sealed@,
            ) == Some(plaintext@),
            Err(e) => e == HexvaultError::EncryptionFailure,
        },
{
    let unbound = ring::aead::UnboundKey::new(&ring::aead::AES_256_GCM, key)
        .map_err(|_| HexvaultError::EncryptionFailure)?;
    let sealing = ring::aead::LessSafeKey::new(unbound);
    let n = ring::aead::Nonce::try_assume_unique_for_key(nonce)
        .map_err(|_| HexvaultError::EncryptionFailure)?;
    let mut buffer = plaintext.to_vec();
    sealing.seal_in_place_append_tag(n, ring::aead::Aad::empty(), &mut buffer)
        .map_err(|_| HexvaultError::EncryptionFailure)?;
    Ok(buffer)
}

/// Relies on ring's AES-256-GCM `open_in_place`: returns the plaintext
/// exactly when the authentication tag verifies for this key, nonce, and
/// ciphertext, and an error otherwise. Decryption is deterministic, so the
/// outcome names `gcm_open_bytes` on these arguments.
#[verifier::external_body]
fn aead_open(key: &[u8; KEY_LEN], nonce: &[u8], ciphertext: &[u8]) -> (r: Result<Vec<u8>, HexvaultError>)
    requires
        nonce@.len() == NONCE_LEN,
    ensures
        match gcm_open_bytes(key@, nonce@, ciphertext@) {
            Some(p) => r is Ok && r->Ok_0@ == p,
            None => r == Err::<Vec<u8>, HexvaultError>(HexvaultError::DecryptionFailure),
        },
{
    let unbound = ring::aead::UnboundKey::new(&ring::aead::AES_256_GCM, key)
        .map_err(|_| HexvaultError::DecryptionFailure)?;
    let opening = ring::aead::LessSafeKey::new(unbound);
    let n = ring::aead::Nonce::try_assume_unique_for_key(nonce)
        .map_err(|_| HexvaultError::DecryptionFailure)?;
    let mut buffer = ciphertext.to_vec();
    let plain = opening.open_in_place(n, ring::aead::Aad::empty(), &mut buffer)
        .map_err(|_| HexvaultError::DecryptionFailure)?;
    Ok(plain.to_vec())
}

/// Encrypt a plaintext payload using AES-256-GCM.
///
/// Returns the nonce prepended to the ciphertext, so the caller does not
/// manage the nonce separately:
///
/// ```text
/// [ nonce (12 bytes) ][ ciphertext + GCM tag ]
/// ```
///
/// Whatever nonce the random source produced, decrypting the returned blob
/// with the same key yields the plaintext again.
pub(crate) fn encrypt(key_bytes: &[u8; KEY_LEN], plaintext: &[u8]) -> (r: Result<Vec<u8>, HexvaultError>)
    ensures
        r is Ok ==> r->Ok_0@.len() == plaintext@.len() + NONCE_LEN + TAG_LEN,
        r is Ok ==> spec_open_blob(key_bytes@, r->Ok_0@) == Some(plaintext@),
        r is Err ==> (r->Err_0 == HexvaultError::RandomnessFailure || r->Err_0
            == HexvaultError::EncryptionFailure),
{
    let nonce = match random_bytes::<NONCE_LEN>() {
        Ok(n) => n,
        Err(e) => {
            return Err(e);
        },
    };
    let sealed = match aead_seal(key_bytes, nonce.as_slice(), plaintext) {
        Ok(s) => s,
        Err(e) => {
            return Err(e);
        },
    };
    let mut output: Vec<u8> = Vec::new();
    output.extend_from_slice(nonce.as_slice());
    output.extend_from_slice(sealed.as_slice());
    proof {
        assert(output@.take(NONCE_LEN as int) =~= nonce@);
        assert(output@.skip(NONCE_LEN as int) =~= sealed@);
    }
    Ok(output)
}

/// Decrypt a ciphertext payload using AES-256-GCM.
///
/// Expects the input in the layout produced by `encrypt`: nonce (12 bytes)
/// followed by ciphertext and GCM tag. If the input is truncated, the key
/// is wrong, or any byte was altered, the result is `DecryptionFailure`
/// and no partial plaintext is returned.
pub(crate) fn decrypt(key_bytes: &[u8; KEY_LEN], ciphertext: &[u8]) -> (r: Result<Vec<u8>, HexvaultError>)
    ensures
        match spec_open_blob(key_bytes@, ciphertext@) {
            Some(p) => r is Ok && r->Ok_0@ == p,
            None => r == Err::<Vec<u8>, HexvaultError>(HexvaultError::DecryptionFailure),
        },
{
    if ciphertext.len() < NONCE_LEN {
        return Err(HexvaultError::DecryptionFailure);
    }
    let (nonce, payload) = ciphertext.split_at(NONCE_LEN);
    proof {
        assert(nonce@ =~= ciphertext@.take(NONCE_LEN as int));
        assert(payload@ =~= ciphertext@.skip(NONCE_LEN as int));
    }
    aead_open(key_bytes, nonce, payload)
}

/// Generate a cryptographically secure random key.
///
/// This is the only function in the crate that produces raw key material
/// from scratch.
pub(crate) fn generate_random_key() -> (r: Result<[u8; KEY_LEN], HexvaultError>)
    ensures
        r is Err ==> r == Err::<[u8; KEY_LEN], HexvaultError>(HexvaultError::RandomnessFailure),
{
    random_bytes::<KEY_LEN>()
}

} // verus!
