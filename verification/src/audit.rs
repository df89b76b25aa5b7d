//! Immutable audit logging.
//!
//! Records every edge traversal. The log is append-only: `append` is the
//! only mutator, and records are never altered or removed. Pluggable sinks
//! may be registered to receive a copy of each record at append time.

use vstd::prelude::*;

use crate::stack::Layer;

verus! {

/// A sink that receives audit records. Implement this to forward records
/// to a file, database, or other persistent store. A sink makes a
/// best-effort attempt to persist what it is given; its failures must not
/// abort the traversal that produced the record, so `append` returns
/// nothing and promises nothing.
pub trait AuditSink {
    /// Accept one record. Called once per appended record.
    fn append(&mut self, record: AuditRecord);
}

/// A permanent record of a data movement event.
#[derive(Debug)]
pub struct AuditRecord {
    /// The cell the data moved FROM.
    pub source_cell_id: String,
    /// The cell the data moved TO.
    pub dest_cell_id: String,
    /// The encryption layer at which the payload was sealed in the destination.
    pub layer: Layer,
    /// When the traversal occurred, as an RFC 3339 string.
    pub timestamp: String,
}

impl Clone for AuditRecord {
    /// A clone carries exactly the same fields.
    fn clone(&self) -> (other: Self)
        ensures
            other == *self,
    {
        AuditRecord {
            source_cell_id: self.source_cell_id.clone(),
            dest_cell_id: self.dest_cell_id.clone(),
            layer: self.layer,
            timestamp: self.timestamp.clone(),
        }
    }
}

/// One registered forwarding sink.
struct SinkHolder {
    sink: Box<dyn AuditSink>,
}

/// Box a sink for registration.
fn hold_sink<S: AuditSink + 'static>(sink: S) -> SinkHolder {
    SinkHolder { sink: Box::new(sink) }
}

/// An append-only log of all traversals.
/// Can forward records to additional sinks via `add_forward_sink`.
pub struct AuditLog {
    records: Vec<AuditRecord>,
    forward_sinks: Vec<SinkHolder>,
}

impl AuditLog {
    /// The records appended so far, oldest first.
    pub closed spec fn spec_records(self) -> Seq<AuditRecord> {
        self.records@
    }

    /// How many forwarding sinks are registered.
    pub closed spec fn spec_sink_count(self) -> nat {
        self.forward_sinks@.len()
    }

    /// Create an empty log with no forwarding sinks.
    pub fn new() -> (log: Self)
        ensures
            log.spec_records() == Seq::<AuditRecord>::empty(),
            log.spec_sink_count() == 0,
    {
        AuditLog { records: Vec::new(), forward_sinks: Vec::new() }
    }

    /// Add a sink to receive a copy of every record appended from now on.
    /// Useful for persisting to a file or other store without replacing
    /// the in-memory log. Existing records are not replayed to it, and the
    /// sink count grows by exactly one: the sink joins the end of the
    /// registration order.
    pub fn add_forward_sink<S: AuditSink + 'static>(&mut self, sink: S)
        ensures
            final(self).spec_records() == old(self).spec_records(),
            final(self).spec_sink_count() == old(self).spec_sink_count() + 1,
    {
        let holder = hold_sink(sink);
        self.forward_sinks.push(holder);
    }

    /// Append a new record to the log, handing a copy to every registered
    /// sink first, in registration order. This is the log's only mutator:
    /// existing records are never touched.
    pub fn append(&mut self, record: AuditRecord)
        ensures
            final(self).spec_records() == old(self).spec_records().push(record),
            final(self).spec_sink_count() == old(self).spec_sink_count(),
    {
        let n = self.forward_sinks.len();
        let mut i: usize = 0;
        while i < n
            invariant
                n == self.forward_sinks@.len(),
                self.records@ == old(self).records@,
            decreases n - i,
        {
            let holder = &mut self.forward_sinks[i];
            holder.sink.append(record.clone());
            i = i + 1;
        }
        self.records.push(record);
    }

    /// Return the number of records in the log.
    pub fn len(&self) -> (n: usize)
        ensures
            n == self.spec_records().len(),
    {
        self.records.len()
    }

    /// Returns true if the log is empty.
    pub fn is_empty(&self) -> (b: bool)
        ensures
            b == (self.spec_records().len() == 0),
    {
        self.records.is_empty()
    }

    /// The record at a position, oldest first.
    pub fn get(&self, i: usize) -> (record: &AuditRecord)
        requires
            i < self.spec_records().len(),
        ensures
            *record == self.spec_records()[i as int],
    {
        &self.records[i]
    }

    /// Iterate over the records, oldest first.
    pub fn iter(&self) -> (it: std::slice::Iter<'_, AuditRecord>)
        ensures
            vstd::std_specs::iter::IteratorSpec::remaining(&it) == self.spec_records().as_ref(),
    {
        self.records.as_slice().iter()
    }
}

impl Clone for AuditLog {
    /// Clone the records; forwarding sinks are not cloned.
    fn clone(&self) -> (other: Self)
        ensures
            other.spec_records() == self.spec_records(),
            other.spec_sink_count() == 0,
    {
        AuditLog { records: self.records.clone(), forward_sinks: Vec::new() }
    }
}

} // verus!
