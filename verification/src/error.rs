//! Error kinds for every vault operation.
//!
//! Each variant is a distinct failure mode. The text returned by
//! [`HexvaultError::message`] is deliberately minimal: it names the failure
//! category without revealing which layer, key, or byte caused it.

use vstd::prelude::*;

verus! {

/// The single error type for all vault operations.
#[derive(Debug)]
pub enum HexvaultError {
    /// A cryptographic key was invalid (wrong length, malformed, etc.).
    InvalidKey,
    /// Encryption failed in the underlying AEAD primitive.
    EncryptionFailure,
    /// Decryption failed: wrong key, tampered ciphertext, truncated input,
    /// or a corrupted authentication tag. The cases are indistinguishable
    /// to the caller by design.
    DecryptionFailure,
    /// Key derivation (HKDF) failed.
    KeyDerivationFailure,
    /// The system's random number generator failed to produce bytes.
    RandomnessFailure,
    /// No payload is stored under the given logical key.
    CellNotFound(String),
    /// A cell with the given ID already exists.
    CellAlreadyExists(String),
    /// The requested stack layer does not exist or is out of range.
    InvalidLayer,
    /// A required layer context (access policy ID or session ID) was not
    /// provided, or the provided context does not match the expected value.
    MissingOrInvalidContext,
    /// An edge traversal was attempted but the source or destination cell
    /// is not valid for the operation.
    InvalidTraversal(String),
}

impl HexvaultError {
    /// The category text of this error.
    pub open spec fn spec_message(&self) -> Seq<char> {
        match self {
            HexvaultError::InvalidKey => "invalid key"@,
            HexvaultError::EncryptionFailure => "encryption failed"@,
            HexvaultError::DecryptionFailure => "decryption failed"@,
            HexvaultError::KeyDerivationFailure => "key derivation failed"@,
            HexvaultError::RandomnessFailure => "randomness source failed"@,
            HexvaultError::CellNotFound(_) => "cell not found"@,
            HexvaultError::CellAlreadyExists(_) => "cell already exists"@,
            HexvaultError::InvalidLayer => "invalid layer"@,
            HexvaultError::MissingOrInvalidContext => "missing or invalid layer context"@,
            HexvaultError::InvalidTraversal(_) => "invalid traversal"@,
        }
    }

    /// A short, category-only description of the failure.
    pub fn message(&self) -> (m: &'static str)
        ensures
            m@ == self.spec_message(),
    {
        match self {
            HexvaultError::InvalidKey => "invalid key",
            HexvaultError::EncryptionFailure => "encryption failed",
            HexvaultError::DecryptionFailure => "decryption failed",
            HexvaultError::KeyDerivationFailure => "key derivation failed",
            HexvaultError::RandomnessFailure => "randomness source failed",
            HexvaultError::CellNotFound(_) => "cell not found",
            HexvaultError::CellAlreadyExists(_) => "cell already exists",
            HexvaultError::InvalidLayer => "invalid layer",
            HexvaultError::MissingOrInvalidContext => "missing or invalid layer context",
            HexvaultError::InvalidTraversal(_) => "invalid traversal",
        }
    }
}

} // verus!
