//! Key derivation and key ownership.
//!
//! This module owns two responsibilities:
//! 1. Deriving per-cell, per-layer keys from a master key with HKDF-SHA256.
//! 2. Holding key material in types that are opaque, non-cloneable, and
//!    scrubbed on drop.
//!
//! ## Derivation structure
//!
//! ```text
//! HKDF-SHA256(
//!     ikm  = master_key,
//!     salt = empty,
//!     info = "{cell_id}:{layer_tag}:{context_id}"
//! )
//! ```
//!
//! Each unique combination of cell ID, layer tag, and context ID produces a
//! statistically independent key; knowing one derived key reveals nothing
//! about the master key or any other derived key.

use vstd::prelude::*;
use vstd::string::StringExecFns;

use crate::crypto::KEY_LEN;
use crate::error::HexvaultError;

verus! {

/// A master key: the single secret that the caller must manage. All
/// per-cell and per-layer keys are derived from it.
///
/// - Not `Clone`: it cannot be duplicated.
/// - Scrubbed on drop: the bytes are overwritten before deallocation.
pub struct MasterKey {
    bytes: [u8; KEY_LEN],
}

impl View for MasterKey {
    type V = Seq<u8>;

    closed spec fn view(&self) -> Seq<u8> {
        self.bytes@
    }
}

impl MasterKey {
    /// Construct a `MasterKey` from raw bytes.
    ///
    /// The caller should source these bytes from a KMS or from
    /// `crate::generate_master_key`.
    pub fn from_bytes(bytes: [u8; KEY_LEN]) -> (k: Self)
        ensures
            k@ == bytes@,
    {
        MasterKey { bytes }
    }

    /// Borrow the raw key bytes for use in HKDF derivation.
    /// Raw bytes never leave the crate.
    pub(crate) fn as_bytes(&self) -> (b: &[u8; KEY_LEN])
        ensures
            b@ == self@,
    {
        &self.bytes
    }
}

impl Drop for MasterKey {
    /// Overwrite the key material before the memory is deallocated.
    fn drop(&mut self)
        opens_invariants none
        no_unwind
    {
        let mut i: usize = 0;
        while i < KEY_LEN
            invariant
                i <= KEY_LEN,
            decreases KEY_LEN - i,
        {
            self.bytes[i] = 0;
            i = i + 1;
        }
    }
}

/// A key derived for one (cell, layer, context) combination.
///
/// - Not `Clone`: each derived key is a single-use value.
/// - Scrubbed on drop.
/// - Raw bytes never leave the crate.
pub struct DerivedKey {
    bytes: [u8; KEY_LEN],
}

impl View for DerivedKey {
    type V = Seq<u8>;

    closed spec fn view(&self) -> Seq<u8> {
        self.bytes@
    }
}

impl DerivedKey {
    /// Borrow the raw key bytes for one encrypt or decrypt operation.
    pub(crate) fn as_bytes(&self) -> (b: &[u8; KEY_LEN])
        ensures
            b@ == self@,
    {
        &self.bytes
    }
}

impl Drop for DerivedKey {
    /// Overwrite the key material before the memory is deallocated.
    fn drop(&mut self)
        opens_invariants none
        no_unwind
    {
        let mut i: usize = 0;
        while i < KEY_LEN
            invariant
                i <= KEY_LEN,
            decreases KEY_LEN - i,
        {
            self.bytes[i] = 0;
            i = i + 1;
        }
    }
}

/// What HKDF-SHA256 with an empty salt returns for an input keying
/// material and an info string: 32 bytes of output keying material, a
/// function of these two values alone.
pub uninterp spec fn hkdf_sha256(ikm: Seq<u8>, info: Seq<char>) -> Seq<u8>;

/// The HKDF info string for a derivation scope: cell identity, layer tag,
/// and context identifier joined by `:`.
pub open spec fn kdf_info(cell_id: Seq<char>, layer_tag: Seq<char>, context_id: Seq<char>) -> Seq<
    char,
> {
    cell_id + ":"@ + layer_tag + ":"@ + context_id
}

/// The key that `derive_key` produces for a derivation scope.
pub open spec fn spec_derived_key(
    master: Seq<u8>,
    cell_id: Seq<char>,
    layer_tag: Seq<char>,
    context_id: Seq<char>,
) -> Seq<u8> {
    hkdf_sha256(master, kdf_info(cell_id, layer_tag, context_id))
}

/// Relies on ring's HKDF-SHA256 one-shot (`Salt::extract` with an empty
/// salt, then `Prk::expand` and `Okm::fill`): the output keying material is
/// a function of the input keying material and the info string alone. With
/// a 32-byte output request, `expand` (limit: 255 times the digest length)
/// and `fill` (exact-length buffer) cannot fail, so the derivation always
/// succeeds.
#[verifier::external_body]
fn hkdf_derive(master: &[u8; KEY_LEN], info: &str) -> (r: Result<[u8; KEY_LEN], HexvaultError>)
    ensures
        match r {
            Ok(k) => k@ == hkdf_sha256(master@, info@),
            Err(_) => false,
        },
{
    let salt = ring::hkdf::Salt::new(ring::hkdf::HKDF_SHA256, &[]);
    let prk = salt.extract(master);
    let info_slices = [info.as_bytes()];
    let okm = prk.expand(&info_slices, ring::hkdf::HKDF_SHA256)
        .map_err(|_| HexvaultError::KeyDerivationFailure)?;
    let mut derived = [0u8; KEY_LEN];
    okm.fill(&mut derived).map_err(|_| HexvaultError::KeyDerivationFailure)?;
    Ok(derived)
}

/// Derive the key for a specific cell, layer, and context.
///
/// The info string is `{cell_id}:{layer_tag}:{context_id}`; `context_id`
/// is empty for the at-rest layer, an access policy ID for the
/// access-gated layer, and a session ID for the session-bound layer.
pub(crate) fn derive_key(
    master: &MasterKey,
    cell_id: &str,
    layer_tag: &str,
    context_id: &str,
) -> (r: Result<DerivedKey, HexvaultError>)
    ensures
        r is Ok,
        r->Ok_0@ == spec_derived_key(master@, cell_id@, layer_tag@, context_id@),
{
    let mut info = cell_id.to_owned();
    info.append(":");
    info.append(layer_tag);
    info.append(":");
    info.append(context_id);
    proof {
        assert(info@ =~= kdf_info(cell_id@, layer_tag@, context_id@));
    }
    let bytes = match hkdf_derive(master.as_bytes(), info.as_str()) {
        Ok(b) => b,
        Err(e) => {
            return Err(e);
        },
    };
    Ok(DerivedKey { bytes })
}

} // verus!
