use hexvault::generate_master_key;
use hexvault::stack::{peel, seal, Layer, LayerContext};

#[test]
fn test_layer_peeling_order() {
    // Threat model: data at rest exposure (depth).
    // Layers must be peeled in order, top-down.

    let master = generate_master_key().unwrap();
    let cell_id = "test-cell";
    let plaintext = b"layered secret";

    let ctx = LayerContext {
        access_policy_id: Some("policy".into()),
        session_id: Some("session".into()),
    };

    // 1. Seal to the outermost layer (SessionBound).
    let sealed = seal(&master, cell_id, Layer::SessionBound, &ctx, plaintext).unwrap();

    // 2. Attempt to peel as if the top layer were AccessGated: this tries
    // to remove the outer shell with the wrong layer's key and MUST fail.
    let result = peel(&master, cell_id, Layer::AccessGated, &ctx, &sealed);
    assert!(result.is_err(), "Managed to peel bypassing the top layer!");
}

#[test]
fn test_invalid_context_rejection() {
    // Threat model: unauthorised access.
    // A missing or wrong context ID rejects access.

    let master = generate_master_key().unwrap();
    let cell_id = "test-auth";
    let plaintext = b"guarded secret";

    let correct_ctx = LayerContext {
        access_policy_id: Some("secret-policy".into()),
        session_id: None,
    };

    // 1. Seal to AccessGated.
    let sealed = seal(&master, cell_id, Layer::AccessGated, &correct_ctx, plaintext).unwrap();

    // 2. Attempt to peel with the WRONG policy ID.
    let mut wrong_ctx = correct_ctx.clone();
    wrong_ctx.access_policy_id = Some("public-policy".into());

    let result = peel(&master, cell_id, Layer::AccessGated, &wrong_ctx, &sealed);
    assert!(result.is_err(), "Peeling succeeded with wrong access policy ID!");

    // 3. Attempt to peel with a MISSING policy ID.
    let mut missing_ctx = correct_ctx.clone();
    missing_ctx.access_policy_id = None;

    let result_missing = peel(&master, cell_id, Layer::AccessGated, &missing_ctx, &sealed);
    assert!(
        result_missing.is_err(),
        "Peeling succeeded with missing access policy ID!"
    );
}
