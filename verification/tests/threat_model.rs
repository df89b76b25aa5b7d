use hexvault::error::HexvaultError;
use hexvault::stack::{Layer, LayerContext};
use hexvault::{generate_master_key, Vault};

#[test]
fn test_insider_access_no_audit() {
    // Threat model: an insider attempts to traverse data without audit.
    // The public API offers no way to move data between cells except
    // `traverse`, and that must produce a log entry.

    let master = generate_master_key().unwrap();
    let mut vault = Vault::new(master);
    let mut cell_a = vault.create_cell("a".into());
    let mut cell_b = vault.create_cell("b".into());
    let ctx = LayerContext::default();

    vault
        .seal(&mut cell_a, "secret", b"hush", Layer::AtRest, &ctx)
        .unwrap();

    // The only way to move "secret" to "b" using `Vault` is `traverse`.
    vault
        .traverse(&cell_a, &mut cell_b, "secret", Layer::AtRest, &ctx, &ctx)
        .unwrap();

    // And that MUST produce a log.
    assert!(!vault.audit_log().is_empty());
}

#[test]
fn test_error_messages_name_only_the_category() {
    assert_eq!(HexvaultError::InvalidKey.message(), "invalid key");
    assert_eq!(HexvaultError::EncryptionFailure.message(), "encryption failed");
    assert_eq!(HexvaultError::DecryptionFailure.message(), "decryption failed");
    assert_eq!(
        HexvaultError::KeyDerivationFailure.message(),
        "key derivation failed"
    );
    assert_eq!(
        HexvaultError::RandomnessFailure.message(),
        "randomness source failed"
    );
    assert_eq!(
        HexvaultError::CellNotFound("x".to_string()).message(),
        "cell not found"
    );
    assert_eq!(
        HexvaultError::CellAlreadyExists("x".to_string()).message(),
        "cell already exists"
    );
    assert_eq!(HexvaultError::InvalidLayer.message(), "invalid layer");
    assert_eq!(
        HexvaultError::MissingOrInvalidContext.message(),
        "missing or invalid layer context"
    );
    assert_eq!(
        HexvaultError::InvalidTraversal("why".to_string()).message(),
        "invalid traversal"
    );
}
