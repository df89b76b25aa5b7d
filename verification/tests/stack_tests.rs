//! Round-trip and context checks for the layer stack.

use hexvault::keys::MasterKey;
use hexvault::stack::{peel, seal, Layer, LayerContext};

#[test]
fn test_seal_peel_roundtrip() {
    let master = MasterKey::from_bytes([0u8; 32]);
    let cell_id = "test-cell";
    let plaintext = b"secret message";
    let context = LayerContext {
        access_policy_id: Some("policy-123".to_string()),
        session_id: Some("session-456".to_string()),
    };

    // Test roundtrip for each layer depth.
    for layer in [Layer::AtRest, Layer::AccessGated, Layer::SessionBound] {
        let sealed = seal(&master, cell_id, layer, &context, plaintext).unwrap();
        let peeled = peel(&master, cell_id, layer, &context, &sealed).unwrap();
        assert_eq!(plaintext, &peeled[..]);
    }
}

#[test]
fn test_peel_fails_with_wrong_context() {
    let master = MasterKey::from_bytes([0u8; 32]);
    let cell_id = "test-cell";
    let plaintext = b"secret message";
    let context = LayerContext {
        access_policy_id: Some("correct-policy".to_string()),
        session_id: Some("correct-session".to_string()),
    };

    let sealed = seal(&master, cell_id, Layer::SessionBound, &context, plaintext).unwrap();

    // Wrong session ID
    let mut wrong_context = context.clone();
    wrong_context.session_id = Some("wrong-session".to_string());
    assert!(peel(&master, cell_id, Layer::SessionBound, &wrong_context, &sealed).is_err());

    // Missing access policy
    let mut missing_context = context.clone();
    missing_context.access_policy_id = None;
    assert!(peel(&master, cell_id, Layer::SessionBound, &missing_context, &sealed).is_err());
}

#[test]
fn test_seal_adds_nonce_and_tag_per_layer() {
    // Each layer must add exactly one 12-byte nonce and one 16-byte tag,
    // and the sealed bytes must not be the plaintext handed in.
    let master = MasterKey::from_bytes([7u8; 32]);
    let context = LayerContext {
        access_policy_id: Some("p".to_string()),
        session_id: Some("s".to_string()),
    };
    let plaintext = b"exact sizes";

    let one = seal(&master, "c", Layer::AtRest, &context, plaintext).unwrap();
    assert_eq!(one.len(), plaintext.len() + 28);
    assert_ne!(&one[28..], &plaintext[..]);

    let two = seal(&master, "c", Layer::AccessGated, &context, plaintext).unwrap();
    assert_eq!(two.len(), plaintext.len() + 56);

    let three = seal(&master, "c", Layer::SessionBound, &context, plaintext).unwrap();
    assert_eq!(three.len(), plaintext.len() + 84);
}

#[test]
fn test_empty_plaintext_roundtrip() {
    let master = MasterKey::from_bytes([1u8; 32]);
    let context = LayerContext::default();
    let sealed = seal(&master, "c", Layer::AtRest, &context, b"").unwrap();
    assert_eq!(sealed.len(), 28);
    let peeled = peel(&master, "c", Layer::AtRest, &context, &sealed).unwrap();
    assert!(peeled.is_empty());
}

#[test]
fn test_tampered_ciphertext_rejected() {
    let master = MasterKey::from_bytes([2u8; 32]);
    let context = LayerContext::default();
    let mut sealed = seal(&master, "c", Layer::AtRest, &context, b"payload").unwrap();
    let last = sealed.len() - 1;
    sealed[last] ^= 0x01;
    let result = peel(&master, "c", Layer::AtRest, &context, &sealed);
    assert!(matches!(
        result,
        Err(hexvault::error::HexvaultError::DecryptionFailure)
    ));
}

#[test]
fn test_truncated_ciphertext_rejected() {
    let master = MasterKey::from_bytes([2u8; 32]);
    let context = LayerContext::default();
    // Shorter than one nonce: rejected before any cryptography.
    let result = peel(&master, "c", Layer::AtRest, &context, &[0u8; 5]);
    assert!(matches!(
        result,
        Err(hexvault::error::HexvaultError::DecryptionFailure)
    ));
}

#[test]
fn test_seal_missing_context_reports_missing() {
    let master = MasterKey::from_bytes([3u8; 32]);
    let context = LayerContext::default();
    let result = seal(&master, "c", Layer::AccessGated, &context, b"x");
    assert!(matches!(
        result,
        Err(hexvault::error::HexvaultError::MissingOrInvalidContext)
    ));
    let result2 = seal(
        &master,
        "c",
        Layer::SessionBound,
        &LayerContext {
            access_policy_id: Some("p".to_string()),
            session_id: None,
        },
        b"x",
    );
    assert!(matches!(
        result2,
        Err(hexvault::error::HexvaultError::MissingOrInvalidContext)
    ));
}

#[test]
fn test_layer_tags() {
    assert_eq!(Layer::AtRest.tag(), "rest");
    assert_eq!(Layer::AccessGated.tag(), "access");
    assert_eq!(Layer::SessionBound.tag(), "session");
}
