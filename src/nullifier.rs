//! The nullifier registry: a create-once key space whose keys mark spent notes.
use vstd::prelude::*;
use crate::bytes::{bytes32_eq, Address};

verus! {

/// The tombstone of a spent note: `nullifier` was spent in the pool of
/// authority `pool` at time `used_at`. Never updated or removed.
#[derive(Clone, Copy, Debug, PartialEq, Eq)]
pub struct NullifierRecord {
    pub pool: Address,
    pub nullifier: [u8; 32],
    pub used_at: i64,
}

/// Whether `records` holds a record for `nullifier` in the pool of `pool`.
pub open spec fn is_spent(records: Seq<NullifierRecord>, pool: Address, nullifier: [u8; 32]) -> bool {
    exists|i: int| 0 <= i < records.len() && records[i].pool == pool && records[i].nullifier == nullifier
}

/// Whether no two of `records` share a pool and a nullifier.
pub open spec fn keys_unique(records: Seq<NullifierRecord>) -> bool {
    forall|i: int, j: int|
        0 <= i < j < records.len() ==> !(records[i].pool == records[j].pool
            && records[i].nullifier == records[j].nullifier)
}

/// Every nullifier ever spent, in the order of spending.
pub struct NullifierRegistry {
    records: Vec<NullifierRecord>,
}

impl View for NullifierRegistry {
    type V = Seq<NullifierRecord>;

    closed spec fn view(&self) -> Seq<NullifierRecord> {
        self.records@
    }
}

impl NullifierRegistry {
    /// Holds of every registry: each (pool, nullifier) pair is recorded at most once.
    pub open spec fn wf(&self) -> bool {
        keys_unique(self@)
    }

    /// An empty registry.
    pub fn new() -> (r: NullifierRegistry)
        ensures
            r@ == Seq::<NullifierRecord>::empty(),
            r.wf(),
    {
        NullifierRegistry { records: Vec::new() }
    }

    /// Number of spent nullifiers, over all pools.
    pub fn len(&self) -> (n: usize)
        ensures
            n == self@.len(),
    {
        self.records.len()
    }

    /// Whether `nullifier` was spent in the pool of `pool`.
    pub fn contains(&self, pool: &Address, nullifier: &[u8; 32]) -> (r: bool)
        ensures
            r == is_spent(self@, *pool, *nullifier),
    {
        let mut i: usize = 0;
        while i < self.records.len()
            invariant
                i <= self.records@.len(),
                forall|j: int|
                    0 <= j < i ==> !(self.records@[j].pool == *pool && self.records@[j].nullifier
                        == *nullifier),
            decreases self.records@.len() - i,
        {
            let rec = &self.records[i];
            if bytes32_eq(&rec.pool, pool) && bytes32_eq(&rec.nullifier, nullifier) {
                return true;
            }
            i = i + 1;
        }
        false
    }

    /// Records a nullifier that is not yet spent in its pool.
    pub(crate) fn insert(&mut self, rec: NullifierRecord)
        requires
            old(self).wf(),
            !is_spent(old(self)@, rec.pool, rec.nullifier),
        ensures
            final(self)@ == old(self)@.push(rec),
            final(self).wf(),
    {
        self.records.push(rec);
        assert(self.records@[self.records@.len() - 1] == rec);
    }
}

} // verus!
