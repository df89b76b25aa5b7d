//! Cascading cell-partitioned encryption.
//!
//! Data is partitioned into isolated cells; within a cell a payload is
//! wrapped in up to three nested encryption layers, each bound to a
//! different trust boundary. Movement between cells goes through one
//! audited operation that decrypts from the source and re-encrypts into
//! the destination without exposing plaintext outside its scope.

use vstd::prelude::*;

pub mod audit;
pub mod cell;
pub(crate) mod crypto;
pub mod edge;
pub mod error;
pub mod keys;
pub mod stack;

use audit::{AuditLog, AuditRecord, AuditSink};
use cell::{Cell, CellId};
use error::HexvaultError;
use keys::MasterKey;
use stack::{sealed_for, spec_peel, Layer, LayerContext};

verus! {

/// Generate a cryptographically secure master key.
///
/// This is the only entry point for producing key material. The returned
/// `MasterKey` is the single secret from which all per-cell and per-layer
/// keys are derived. In production, callers should source master keys from
/// a dedicated KMS rather than generating them locally.
pub fn generate_master_key() -> (r: Result<MasterKey, HexvaultError>)
    ensures
        match r {
            Ok(_) => true,
            Err(e) => e == HexvaultError::RandomnessFailure,
        },
{
    let bytes = match crypto::generate_random_key() {
        Ok(b) => b,
        Err(e) => {
            return Err(e);
        },
    };
    Ok(MasterKey::from_bytes(bytes))
}

/// The high-level entry point for managing cells and traversals.
///
/// Holds the master key and the central audit log. Every seal, open, and
/// traversal goes through this vault's one master key, and every traversal
/// is recorded in its one audit log: the public surface offers no way to
/// move data between two cells without the audit append.
pub struct Vault {
    master_key: MasterKey,
    audit_log: AuditLog,
}

impl Vault {
    /// The master key's bytes, visible to contracts only.
    pub closed spec fn spec_master(self) -> Seq<u8> {
        self.master_key@
    }

    /// The audit records appended so far, oldest first.
    pub closed spec fn spec_audit_records(self) -> Seq<AuditRecord> {
        self.audit_log.spec_records()
    }

    /// How many forwarding sinks are registered with the audit log.
    pub closed spec fn spec_sink_count(self) -> nat {
        self.audit_log.spec_sink_count()
    }

    /// Create a new Vault with the provided master key and an empty log.
    pub fn new(master_key: MasterKey) -> (v: Self)
        ensures
            v.spec_master() == master_key@,
            v.spec_audit_records() == Seq::<AuditRecord>::empty(),
    {
        Vault { master_key, audit_log: AuditLog::new() }
    }

    /// Create a new isolated, empty cell.
    pub fn create_cell(&self, id: CellId) -> (c: Cell)
        ensures
            c.wf(),
            c.spec_id() == id@,
            c.contents() == Map::<Seq<char>, (Seq<u8>, Layer)>::empty(),
    {
        Cell::new(id)
    }

    /// Seal a payload into a specific cell under a logical key,
    /// overwriting any previous payload under that key.
    pub fn seal(
        &self,
        cell: &mut Cell,
        key: &str,
        plaintext: &[u8],
        layer: Layer,
        context: &LayerContext,
    ) -> (r: Result<(), HexvaultError>)
        requires
            old(cell).wf(),
        ensures
            final(cell).wf(),
            final(cell).spec_id() == old(cell).spec_id(),
            r is Ok ==> {
                &&& final(cell).contents().contains_key(key@)
                &&& final(cell).contents()[key@].1 == layer
                &&& sealed_for(
                    self.spec_master(),
                    old(cell).spec_id(),
                    layer,
                    *context,
                    plaintext@,
                    final(cell).contents()[key@].0,
                )
                &&& final(cell).contents() == old(cell).contents().insert(
                    key@,
                    final(cell).contents()[key@],
                )
            },
            r is Err ==> *final(cell) == *old(cell),
            !context.sufficient_for(layer) ==> r is Err,
            r is Err ==> (r->Err_0 == HexvaultError::MissingOrInvalidContext || r->Err_0
                == HexvaultError::RandomnessFailure || r->Err_0
                == HexvaultError::EncryptionFailure),
            r is Err && r->Err_0 == HexvaultError::MissingOrInvalidContext
                ==> !context.sufficient_for(layer),
    {
        cell.store(&self.master_key, key, plaintext, layer, context)
    }

    /// Retrieve a payload from a cell: look it up under the logical key
    /// and peel it from its recorded layer.
    pub fn open(&self, cell: &Cell, key: &str, context: &LayerContext) -> (r: Result<
        Vec<u8>,
        HexvaultError,
    >)
        requires
            cell.wf(),
        ensures
            !cell.contents().contains_key(key@) ==> (r is Err && (r->Err_0 matches
                HexvaultError::CellNotFound(k) && k@ == key@)),
            cell.contents().contains_key(key@) ==> (match spec_peel(
                self.spec_master(),
                cell.spec_id(),
                cell.contents()[key@].1.spec_depth(),
                *context,
                cell.contents()[key@].0,
            ) {
                Ok(p) => r is Ok && r->Ok_0@ == p,
                Err(e) => r is Err && r->Err_0 == e,
            }),
    {
        cell.retrieve(&self.master_key, key, context)
    }

    /// Traverse data from one cell to another: peel from the source, seal
    /// into the destination, and record the move (see `edge::traverse`).
    pub fn traverse(
        &mut self,
        source: &Cell,
        dest: &mut Cell,
        key: &str,
        target_layer: Layer,
        source_ctx: &LayerContext,
        dest_ctx: &LayerContext,
    ) -> (r: Result<(), HexvaultError>)
        requires
            source.wf(),
            old(dest).wf(),
        ensures
            final(self).spec_master() == old(self).spec_master(),
            final(dest).wf(),
            final(dest).spec_id() == old(dest).spec_id(),
            r is Err ==> *final(dest) == *old(dest),
            r is Err ==> final(self).spec_audit_records() == old(self).spec_audit_records(),
            r is Ok ==> final(self).spec_audit_records() == old(self).spec_audit_records().push(
                final(self).spec_audit_records().last(),
            ),
            r is Ok ==> {
                &&& final(self).spec_audit_records().last().source_cell_id@ == source.spec_id()
                &&& final(self).spec_audit_records().last().dest_cell_id@ == old(dest).spec_id()
                &&& final(self).spec_audit_records().last().layer == target_layer
            },
            r is Ok ==> {
                &&& final(dest).contents().contains_key(key@)
                &&& final(dest).contents()[key@].1 == target_layer
                &&& final(dest).contents() == old(dest).contents().insert(
                    key@,
                    final(dest).contents()[key@],
                )
            },
            !source.contents().contains_key(key@) ==> (r is Err && (r->Err_0 matches
                HexvaultError::CellNotFound(k) && k@ == key@)),
            source.contents().contains_key(key@) ==> (match spec_peel(
                old(self).spec_master(),
                source.spec_id(),
                source.contents()[key@].1.spec_depth(),
                *source_ctx,
                source.contents()[key@].0,
            ) {
                Err(e) => r is Err && r->Err_0 == e,
                Ok(p) => {
                    &&& (!dest_ctx.sufficient_for(target_layer) ==> r is Err)
                    &&& (r is Err ==> (r->Err_0 == HexvaultError::MissingOrInvalidContext
                        || r->Err_0 == HexvaultError::RandomnessFailure || r->Err_0
                        == HexvaultError::EncryptionFailure))
                    &&& (r is Ok ==> sealed_for(
                        old(self).spec_master(),
                        old(dest).spec_id(),
                        target_layer,
                        *dest_ctx,
                        p,
                        final(dest).contents()[key@].0,
                    ))
                },
            }),
    {
        edge::traverse(
            &self.master_key,
            &mut self.audit_log,
            dest,
            edge::TraversalRequest { source, key, target_layer, source_ctx, dest_ctx },
        )
    }

    /// Register a sink with the audit log; it will receive a copy of every
    /// record appended from now on. Existing records are not replayed to
    /// it, and the registered-sink count grows by exactly one.
    pub fn add_audit_sink<S: AuditSink + 'static>(&mut self, sink: S)
        ensures
            final(self).spec_master() == old(self).spec_master(),
            final(self).spec_audit_records() == old(self).spec_audit_records(),
            final(self).spec_sink_count() == old(self).spec_sink_count() + 1,
    {
        self.audit_log.add_forward_sink(sink);
    }

    /// Inspect the audit log.
    pub fn audit_log(&self) -> (log: &AuditLog)
        ensures
            log.spec_records() == self.spec_audit_records(),
    {
        &self.audit_log
    }
}

} // verus!
