//! Layered encryption sequencing.
//!
//! The stack defines how encryption is applied (bottom-up) and removed
//! (top-down). Each layer corresponds to a different trust boundary and
//! requires specific context to peel.
//!
//! The behaviour of peeling is captured by [`spec_peel`]: per layer, the
//! required context identifier is resolved (a missing identifier denies),
//! the layer key is derived from the master key and the cell identity, and
//! one nonce-prefixed blob is opened (failed authentication denies).
//! Sealing promises exactly that the blob it returns peels back to the
//! sealed plaintext in the same scope.

use vstd::prelude::*;

use crate::crypto;
use crate::crypto::{spec_open_blob, NONCE_LEN, TAG_LEN};
use crate::error::HexvaultError;
use crate::keys;
use crate::keys::{spec_derived_key, MasterKey};

verus! {

/// The three layers of the encryption stack, in cascade order.
#[derive(Debug, Clone, Copy, PartialEq, Eq, PartialOrd, Ord, Structural)]
pub enum Layer {
    /// Base data protection (at-rest). Innermost, applied first.
    AtRest,
    /// Access policy enforcement.
    AccessGated,
    /// Session lifetime enforcement. Outermost, applied last.
    SessionBound,
}

/// The layer that sits at a given depth of the cascade: 0 is innermost.
pub open spec fn layer_of_depth(d: int) -> Layer {
    if d <= 0 {
        Layer::AtRest
    } else if d == 1 {
        Layer::AccessGated
    } else {
        Layer::SessionBound
    }
}

impl Layer {
    /// Position of this layer in the cascade: 0 innermost, 2 outermost.
    pub open spec fn spec_depth(self) -> int {
        match self {
            Layer::AtRest => 0,
            Layer::AccessGated => 1,
            Layer::SessionBound => 2,
        }
    }

    /// Position of this layer in the cascade: 0 innermost, 2 outermost.
    pub fn depth(&self) -> (d: u8)
        ensures
            d as int == self.spec_depth(),
    {
        match self {
            Layer::AtRest => 0,
            Layer::AccessGated => 1,
            Layer::SessionBound => 2,
        }
    }

    /// The tag that scopes key derivation for this layer.
    pub open spec fn spec_tag(self) -> Seq<char> {
        match self {
            Layer::AtRest => "rest"@,
            Layer::AccessGated => "access"@,
            Layer::SessionBound => "session"@,
        }
    }

    /// Returns the tag used for key derivation for this layer.
    pub fn tag(&self) -> (t: &'static str)
        ensures
            t@ == self.spec_tag(),
    {
        match self {
            Layer::AtRest => "rest",
            Layer::AccessGated => "access",
            Layer::SessionBound => "session",
        }
    }
}

/// The layer at a given cascade depth.
fn layer_at_depth(d: u8) -> (l: Layer)
    requires
        d <= 2,
    ensures
        l == layer_of_depth(d as int),
{
    match d {
        0 => Layer::AtRest,
        1 => Layer::AccessGated,
        _ => Layer::SessionBound,
    }
}

/// Context required to peel or seal specific layers.
#[derive(Debug, Clone)]
pub struct LayerContext {
    /// Required at or above `Layer::AccessGated`.
    pub access_policy_id: Option<String>,
    /// Required at or above `Layer::SessionBound`.
    pub session_id: Option<String>,
}

impl Default for LayerContext {
    /// A context with neither identifier: sufficient for `Layer::AtRest` only.
    fn default() -> (c: Self)
        ensures
            c.access_policy_id is None,
            c.session_id is None,
    {
        LayerContext { access_policy_id: None, session_id: None }
    }
}

impl LayerContext {
    /// The context identifier a layer's key derivation uses: empty for
    /// AtRest, the access policy ID for AccessGated, the session ID for
    /// SessionBound; nothing when the required identifier is absent.
    pub open spec fn spec_id_for_layer(self, layer: Layer) -> Option<Seq<char>> {
        match layer {
            Layer::AtRest => Some(Seq::<char>::empty()),
            Layer::AccessGated => match self.access_policy_id {
                Some(s) => Some(s@),
                None => None,
            },
            Layer::SessionBound => match self.session_id {
                Some(s) => Some(s@),
                None => None,
            },
        }
    }

    /// True when every layer up to and including `top` has its required
    /// context identifier.
    pub open spec fn sufficient_for(self, top: Layer) -> bool {
        &&& top.spec_depth() >= 1 ==> self.access_policy_id is Some
        &&& top.spec_depth() >= 2 ==> self.session_id is Some
    }

    /// Get the context ID string for a specific layer.
    pub fn get_id_for_layer(&self, layer: Layer) -> (r: Result<String, HexvaultError>)
        ensures
            match self.spec_id_for_layer(layer) {
                Some(s) => r is Ok && r->Ok_0@ == s,
                None => r == Err::<String, HexvaultError>(HexvaultError::MissingOrInvalidContext),
            },
    {
        match layer {
            Layer::AtRest => Ok(String::new()),
            Layer::AccessGated => match &self.access_policy_id {
                Some(s) => Ok(s.clone()),
                None => Err(HexvaultError::MissingOrInvalidContext),
            },
            Layer::SessionBound => match &self.session_id {
                Some(s) => Ok(s.clone()),
                None => Err(HexvaultError::MissingOrInvalidContext),
            },
        }
    }
}

/// The key for one layer of a cell's cascade under a given context ID.
pub open spec fn spec_layer_key(
    master: Seq<u8>,
    cell_id: Seq<char>,
    layer: Layer,
    ctx_id: Seq<char>,
) -> Seq<u8> {
    spec_derived_key(master, cell_id, layer.spec_tag(), ctx_id)
}

/// What peeling from cascade depth `d` down to the innermost layer
/// returns. Per layer, top-down: resolve the required context identifier
/// (missing context denies), derive the layer key, open one nonce-prefixed
/// blob (failed authentication denies), and continue on the inner bytes.
pub open spec fn spec_peel(
    master: Seq<u8>,
    cell_id: Seq<char>,
    d: int,
    ctx: LayerContext,
    blob: Seq<u8>,
) -> Result<Seq<u8>, HexvaultError>
    decreases d + 1,
{
    if d < 0 {
        Ok(blob)
    } else {
        match ctx.spec_id_for_layer(layer_of_depth(d)) {
            None => Err(HexvaultError::MissingOrInvalidContext),
            Some(cid) => match spec_open_blob(
                spec_layer_key(master, cell_id, layer_of_depth(d), cid),
                blob,
            ) {
                None => Err(HexvaultError::DecryptionFailure),
                Some(inner) => spec_peel(master, cell_id, d - 1, ctx, inner),
            },
        }
    }
}

/// A blob is sealed for a scope exactly when peeling it in that scope
/// yields the plaintext.
pub open spec fn sealed_for(
    master: Seq<u8>,
    cell_id: Seq<char>,
    top: Layer,
    ctx: LayerContext,
    plaintext: Seq<u8>,
    blob: Seq<u8>,
) -> bool {
    spec_peel(master, cell_id, top.spec_depth(), ctx, blob) == Ok::<Seq<u8>, HexvaultError>(
        plaintext,
    )
}

/// Seal a payload into the stack up to the target layer.
///
/// Encryption is applied bottom-up: the at-rest layer first, then each
/// outer layer in ascending order; the output of one layer is the input of
/// the next. On success the returned blob peels back to the plaintext in
/// the same (master, cell, layer, context) scope, and each applied layer
/// has added one nonce and one tag to the length.
pub fn seal(
    master: &MasterKey,
    cell_id: &str,
    target: Layer,
    context: &LayerContext,
    plaintext: &[u8],
) -> (r: Result<Vec<u8>, HexvaultError>)
    ensures
        r is Ok ==> sealed_for(master@, cell_id@, target, *context, plaintext@, r->Ok_0@),
        r is Ok ==> r->Ok_0@.len() == plaintext@.len() + (target.spec_depth() + 1) * (NONCE_LEN
            + TAG_LEN),
        r is Ok ==> context.sufficient_for(target),
        !context.sufficient_for(target) ==> r is Err,
        r is Err ==> (r->Err_0 == HexvaultError::MissingOrInvalidContext || r->Err_0
            == HexvaultError::RandomnessFailure || r->Err_0 == HexvaultError::EncryptionFailure),
        r is Err && r->Err_0 == HexvaultError::MissingOrInvalidContext ==> !context.sufficient_for(
            target,
        ),
{
    let depth = target.depth();
    let mut current: Vec<u8> = vstd::slice::slice_to_vec(plaintext);
    let mut i: u8 = 0;
    while i <= depth
        invariant
            depth == target.spec_depth(),
            depth <= 2,
            i <= depth + 1,
            spec_peel(master@, cell_id@, i as int - 1, *context, current@) == Ok::<
                Seq<u8>,
                HexvaultError,
            >(plaintext@),
            current@.len() == plaintext@.len() + (i as int) * (NONCE_LEN + TAG_LEN),
            forall|d: int|
                0 <= d < i ==> (#[trigger] context.spec_id_for_layer(layer_of_depth(d))) is Some,
        decreases depth + 1 - i,
    {
        let layer = layer_at_depth(i);
        let context_id = match context.get_id_for_layer(layer) {
            Ok(c) => c,
            Err(e) => {
                proof {
                    assert(context.spec_id_for_layer(layer_of_depth(i as int)) is None);
                    assert(!context.sufficient_for(target));
                }
                return Err(e);
            },
        };
        let key = match keys::derive_key(master, cell_id, layer.tag(), context_id.as_str()) {
            Ok(k) => k,
            Err(e) => {
                return Err(e);
            },
        };
        let sealed = match crypto::encrypt(key.as_bytes(), current.as_slice()) {
            Ok(s) => s,
            Err(e) => {
                return Err(e);
            },
        };
        proof {
            assert(spec_open_blob(
                spec_layer_key(master@, cell_id@, layer_of_depth(i as int), context_id@),
                sealed@,
            ) == Some(current@));
            assert(spec_peel(master@, cell_id@, i as int, *context, sealed@) == Ok::<
                Seq<u8>,
                HexvaultError,
            >(plaintext@));
            assert((i as int + 1) * (NONCE_LEN + TAG_LEN) == (i as int) * (NONCE_LEN + TAG_LEN) + (
            NONCE_LEN + TAG_LEN)) by (nonlinear_arith);
        }
        current = sealed;
        i = i + 1;
    }
    proof {
        assert(context.sufficient_for(target)) by {
            assert(context.spec_id_for_layer(layer_of_depth(1)) is Some ==> (
            context.access_policy_id is Some));
            assert(context.spec_id_for_layer(layer_of_depth(2)) is Some ==> (
            context.session_id is Some));
        }
    }
    Ok(current)
}

/// Peel a payload from its current top layer down to plaintext.
///
/// Decryption is applied top-down, mirroring `seal` in reverse. The result
/// is exactly what [`spec_peel`] says for these arguments: the plaintext
/// when every layer's context identifier is present and every
/// authentication check passes, `MissingOrInvalidContext` when a required
/// identifier is absent, and `DecryptionFailure` when an authentication
/// check fails (wrong cell identity, wrong or reordered layer, altered
/// context, or tampered bytes).
pub fn peel(
    master: &MasterKey,
    cell_id: &str,
    current_top: Layer,
    context: &LayerContext,
    ciphertext: &[u8],
) -> (r: Result<Vec<u8>, HexvaultError>)
    ensures
        match spec_peel(master@, cell_id@, current_top.spec_depth(), *context, ciphertext@) {
            Ok(p) => r is Ok && r->Ok_0@ == p,
            Err(e) => r is Err && r->Err_0 == e,
        },
{
    let depth = current_top.depth();
    let mut current: Vec<u8> = vstd::slice::slice_to_vec(ciphertext);
    let mut j: u8 = 0;
    while j <= depth
        invariant
            depth == current_top.spec_depth(),
            depth <= 2,
            j <= depth + 1,
            spec_peel(master@, cell_id@, depth as int, *context, ciphertext@) == spec_peel(
                master@,
                cell_id@,
                depth as int - j as int,
                *context,
                current@,
            ),
        decreases depth + 1 - j,
    {
        let d = depth - j;
        let layer = layer_at_depth(d);
        let context_id = match context.get_id_for_layer(layer) {
            Ok(c) => c,
            Err(e) => {
                return Err(e);
            },
        };
        let key = match keys::derive_key(master, cell_id, layer.tag(), context_id.as_str()) {
            Ok(k) => k,
            Err(e) => {
                return Err(e);
            },
        };
        let opened = match crypto::decrypt(key.as_bytes(), current.as_slice()) {
            Ok(p) => p,
            Err(e) => {
                return Err(e);
            },
        };
        current = opened;
        j = j + 1;
    }
    Ok(current)
}

/// Law: round trip. A blob sealed for a (master, cell, layer, context)
/// scope peels back, in that same scope, to exactly the plaintext that was
/// sealed — for every plaintext, every layer, and every context.
pub proof fn lemma_seal_peel_round_trip(
    master: Seq<u8>,
    cell_id: Seq<char>,
    top: Layer,
    ctx: LayerContext,
    plaintext: Seq<u8>,
    blob: Seq<u8>,
)
    requires
        sealed_for(master, cell_id, top, ctx, plaintext, blob),
    ensures
        spec_peel(master, cell_id, top.spec_depth(), ctx, blob) == Ok::<Seq<u8>, HexvaultError>(
            plaintext,
        ),
{
}

/// Law: a missing context identifier denies. Peeling with the top layer's
/// required identifier absent yields `MissingOrInvalidContext`, whatever
/// bytes are presented, before any cryptography runs.
pub proof fn lemma_missing_context_denies(
    master: Seq<u8>,
    cell_id: Seq<char>,
    top: Layer,
    ctx: LayerContext,
    blob: Seq<u8>,
)
    requires
        ctx.spec_id_for_layer(top) is None,
    ensures
        spec_peel(master, cell_id, top.spec_depth(), ctx, blob) == Err::<Seq<u8>, HexvaultError>(
            HexvaultError::MissingOrInvalidContext,
        ),
{
    assert(layer_of_depth(top.spec_depth()) == top);
}

/// Law: the at-rest layer never requires context. Sealing or peeling at
/// `Layer::AtRest` reads neither optional context field, so any two
/// contexts give the same result.
pub proof fn lemma_at_rest_ignores_context(
    master: Seq<u8>,
    cell_id: Seq<char>,
    ctx1: LayerContext,
    ctx2: LayerContext,
    blob: Seq<u8>,
)
    ensures
        spec_peel(master, cell_id, Layer::AtRest.spec_depth(), ctx1, blob) == spec_peel(
            master,
            cell_id,
            Layer::AtRest.spec_depth(),
            ctx2,
            blob,
        ),
        ctx1.sufficient_for(Layer::AtRest),
{
    reveal_with_fuel(spec_peel, 3);
    assert(ctx1.spec_id_for_layer(Layer::AtRest) == ctx2.spec_id_for_layer(Layer::AtRest));
}

} // verus!
