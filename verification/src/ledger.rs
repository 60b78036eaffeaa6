//! The append-only store of settlement records.

use crate::error::DistributionError;
use crate::state::DistributionRecord;
use vstd::prelude::*;

verus! {

/// Whether `records` holds an entry for the given contest and distribution index.
pub open spec fn has_record(
    records: Seq<DistributionRecord>,
    contest_id: u64,
    distribution_index: u8,
) -> bool {
    exists|i: int|
        0 <= i < records.len() && (#[trigger] records[i]).key() == (contest_id, distribution_index)
}

/// Whether no two entries of `records` share their contest and distribution index.
pub open spec fn keys_distinct(records: Seq<DistributionRecord>) -> bool {
    forall|i: int, j: int|
        0 <= i < j < records.len() ==> (#[trigger] records[i]).key() != (#[trigger] records[j]).key()
}

/// The store of settlement records: one entry for each contest and
/// distribution index, created once and never changed or removed.
///
/// Its view is the sequence of its entries, oldest first.
#[derive(Debug)]
pub struct AuditLedger {
    records: Vec<DistributionRecord>,
}

impl View for AuditLedger {
    type V = Seq<DistributionRecord>;

    closed spec fn view(&self) -> Seq<DistributionRecord> {
        self.records@
    }
}

impl AuditLedger {
    #[verifier::type_invariant]
    spec fn one_entry_per_key(&self) -> bool {
        keys_distinct(self.records@)
    }

    /// A ledger without entries.
    pub fn new() -> (ledger: AuditLedger)
        ensures
            ledger@ == Seq::<DistributionRecord>::empty(),
    {
        AuditLedger { records: Vec::new() }
    }

    /// The number of entries. No two of them share their contest and
    /// distribution index.
    pub fn len(&self) -> (n: usize)
        ensures
            n == self@.len(),
            keys_distinct(self@),
    {
        proof {
            use_type_invariant(self);
        }
        self.records.len()
    }

    /// The position of the entry for the given pair, if there is one.
    fn position(&self, contest_id: u64, distribution_index: u8) -> (at: Option<usize>)
        ensures
            match at {
                Some(i) => i < self@.len() && self@[i as int].key() == (
                    contest_id,
                    distribution_index,
                ),
                None => !has_record(self@, contest_id, distribution_index),
            },
    {
        let mut i: usize = 0;
        while i < self.records.len()
            invariant
                0 <= i <= self.records@.len(),
                forall|j: int|
                    0 <= j < i ==> (#[trigger] self.records@[j]).key() != (
                        contest_id,
                        distribution_index,
                    ),
            decreases self.records@.len() - i,
        {
            if self.records[i].contest_id == contest_id && self.records[i].distribution_index
                == distribution_index {
                return Some(i);
            }
            i += 1;
        }
        None
    }

    /// Whether an entry for the given pair exists.
    pub fn contains(&self, contest_id: u64, distribution_index: u8) -> (found: bool)
        ensures
            found == has_record(self@, contest_id, distribution_index),
    {
        self.position(contest_id, distribution_index).is_some()
    }

    /// The entry for the given pair, if it exists.
    pub fn get(&self, contest_id: u64, distribution_index: u8) -> (entry: Option<
        DistributionRecord,
    >)
        ensures
            entry is Some <==> has_record(self@, contest_id, distribution_index),
            entry matches Some(record) ==> self@.contains(record) && record.key() == (
                contest_id,
                distribution_index,
            ),
    {
        match self.position(contest_id, distribution_index) {
            Some(i) => Some(self.records[i]),
            None => None,
        }
    }

    /// Appends `record`, unless an entry for its pair exists already.
    pub fn create(&mut self, record: DistributionRecord) -> (res: Result<(), DistributionError>)
        ensures
            match res {
                Ok(()) => {
                    &&& !has_record(old(self)@, record.contest_id, record.distribution_index)
                    &&& final(self)@ == old(self)@.push(record)
                    &&& keys_distinct(final(self)@)
                },
                Err(e) => {
                    &&& has_record(old(self)@, record.contest_id, record.distribution_index)
                    &&& e == DistributionError::RecordExists
                    &&& *final(self) == *old(self)
                },
            },
    {
        if self.contains(record.contest_id, record.distribution_index) {
            return Err(DistributionError::RecordExists);
        }
        proof {
            use_type_invariant(&*self);
        }
        let mut records: Vec<DistributionRecord> = Vec::new();
        core::mem::swap(&mut self.records, &mut records);
        records.push(record);
        core::mem::swap(&mut self.records, &mut records);
        Ok(())
    }
}

} // verus!
