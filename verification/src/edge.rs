//! Edge traversal logic.
//!
//! Handles the secure movement of data between cells:
//! 1. Decrypt from source (peel)
//! 2. Re-encrypt to destination (seal)
//! 3. Append to the audit log
//!
//! This is the only way data moves between cells.

use vstd::prelude::*;

use crate::audit::{AuditLog, AuditRecord};
use crate::cell::Cell;
use crate::error::HexvaultError;
use crate::keys::MasterKey;
use crate::stack::{sealed_for, spec_peel, Layer, LayerContext};

verus! {

/// Configuration arguments for a traversal operation: everything but the
/// destination cell and the audit log, which are passed separately because
/// they are mutated.
pub struct TraversalRequest<'a> {
    /// The cell the payload is read from. Read-only throughout.
    pub source: &'a Cell,
    /// The logical key, used unchanged in both cells.
    pub key: &'a str,
    /// The layer the payload is sealed to in the destination.
    pub target_layer: Layer,
    /// Context for peeling from the source.
    pub source_ctx: &'a LayerContext,
    /// Context for sealing into the destination.
    pub dest_ctx: &'a LayerContext,
}

/// Relies on chrono's `Utc::now` and `DateTime::to_rfc3339`: the current
/// time as an RFC 3339 string. The result depends on the clock, so nothing
/// is promised of its value.
#[verifier::external_body]
fn now_rfc3339() -> String {
    chrono::Utc::now().to_rfc3339()
}

/// Move a payload from one cell to another.
///
/// Three phases, strictly sequential, none skipped on partial success:
/// 1. **Peel**: retrieve the plaintext from the source under `req.key`
///    using `req.source_ctx`. Failure (missing key, wrong context,
///    tampered data) aborts before any mutation: the destination and the
///    audit log are left exactly as they were.
/// 2. **Seal**: store the plaintext into `dest` under the same key, sealed
///    to `req.target_layer` using `req.dest_ctx`. Failure leaves the
///    destination and the audit log unchanged; the source is read-only
///    throughout.
/// 3. **Audit**: only after phase 2 succeeds, append exactly one record
///    carrying the source id, the destination id, and the target layer;
///    registered sinks receive their copies at that moment.
///
/// The plaintext exists only on this call's stack.
pub fn traverse(master: &MasterKey, audit: &mut AuditLog, dest: &mut Cell, req: TraversalRequest)
    -> (r: Result<(), HexvaultError>)
    requires
        req.source.wf(),
        old(dest).wf(),
    ensures
        final(dest).wf(),
        final(dest).spec_id() == old(dest).spec_id(),
        r is Err ==> *final(dest) == *old(dest),
        r is Err ==> final(audit).spec_records() == old(audit).spec_records(),
        r is Ok ==> final(audit).spec_records() == old(audit).spec_records().push(
            final(audit).spec_records().last(),
        ),
        r is Ok ==> {
            &&& final(audit).spec_records().last().source_cell_id@ == req.source.spec_id()
            &&& final(audit).spec_records().last().dest_cell_id@ == old(dest).spec_id()
            &&& final(audit).spec_records().last().layer == req.target_layer
        },
        r is Ok ==> {
            &&& final(dest).contents().contains_key(req.key@)
            &&& final(dest).contents()[req.key@].1 == req.target_layer
            &&& final(dest).contents() == old(dest).contents().insert(
                req.key@,
                final(dest).contents()[req.key@],
            )
        },
        !req.source.contents().contains_key(req.key@) ==> (r is Err && (r->Err_0 matches
            HexvaultError::CellNotFound(k) && k@ == req.key@)),
        req.source.contents().contains_key(req.key@) ==> (match spec_peel(
            master@,
            req.source.spec_id(),
            req.source.contents()[req.key@].1.spec_depth(),
            *req.source_ctx,
            req.source.contents()[req.key@].0,
        ) {
            Err(e) => r is Err && r->Err_0 == e,
            Ok(p) => {
                &&& (!req.dest_ctx.sufficient_for(req.target_layer) ==> r is Err)
                &&& (r is Err ==> (r->Err_0 == HexvaultError::MissingOrInvalidContext || r->Err_0
                    == HexvaultError::RandomnessFailure || r->Err_0
                    == HexvaultError::EncryptionFailure))
                &&& (r is Ok ==> sealed_for(
                    master@,
                    old(dest).spec_id(),
                    req.target_layer,
                    *req.dest_ctx,
                    p,
                    final(dest).contents()[req.key@].0,
                ))
            },
        }),
{
    // Phase 1: peel from the source. No mutation can have happened when
    // this fails.
    let plaintext = match req.source.retrieve(master, req.key, req.source_ctx) {
        Ok(p) => p,
        Err(e) => {
            return Err(e);
        },
    };

    // Phase 2: seal into the destination under the same logical key.
    match dest.store(master, req.key, plaintext.as_slice(), req.target_layer, req.dest_ctx) {
        Ok(u) => u,
        Err(e) => {
            return Err(e);
        },
    };

    // Phase 3: record the successful traversal; the append is the final,
    // irrevocable step.
    let record = AuditRecord {
        source_cell_id: req.source.id().to_owned(),
        dest_cell_id: dest.id().to_owned(),
        layer: req.target_layer,
        timestamp: now_rfc3339(),
    };
    audit.append(record);

    Ok(())
}

} // verus!
