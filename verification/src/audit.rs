//! The append-only audit ledger: one row per accepted dispense command,
//! the source of truth for out-of-band reconciliation.

use vstd::prelude::*;

use crate::models::DropRecord;

verus! {

/// An in-order, append-only collection of audit rows. Appending never
/// merges, reorders or deduplicates: every accepted dispense leaves its
/// own row, however alike two rows may be.
#[derive(Debug, Clone, PartialEq, Eq)]
pub struct AuditLog {
    records: Vec<DropRecord>,
}

impl AuditLog {
    /// The rows of the log, oldest first.
    pub closed spec fn rows(self) -> Seq<DropRecord> {
        self.records@
    }

    /// An empty log.
    pub fn new() -> (r: Self)
        ensures
            r.rows() == Seq::<DropRecord>::empty(),
    {
        AuditLog { records: Vec::new() }
    }

    /// Appends one row at the end; every earlier row stays where it was.
    pub fn append(&mut self, record: DropRecord)
        ensures
            final(self).rows() == old(self).rows().push(record),
    {
        self.records.push(record);
    }

    /// How many rows the log holds.
    pub fn len(&self) -> (n: usize)
        ensures
            n == self.rows().len(),
    {
        self.records.len()
    }

    /// The row at position `i`, oldest first.
    pub fn get(&self, i: usize) -> (r: &DropRecord)
        requires
            i < self.rows().len(),
        ensures
            *r == self.rows()[i as int],
    {
        &self.records[i]
    }
}

/// Two independent successful dispenses leave two rows: appending a record
/// twice — even one equal to the other in every field — grows the log by
/// exactly two, keeps every earlier row in place, and stores both copies
/// at their own positions.
pub proof fn lemma_append_never_merges(rows: Seq<DropRecord>, first: DropRecord, second: DropRecord)
    ensures
        rows.push(first).push(second).len() == rows.len() + 2,
        rows.push(first).push(second)[rows.len() as int] == first,
        rows.push(first).push(second)[rows.len() as int + 1] == second,
        forall|i: int| 0 <= i < rows.len() ==> rows.push(first).push(second)[i] == rows[i],
{
}

} // verus!
