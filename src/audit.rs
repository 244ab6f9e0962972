//! The audit trail of agent actions: a ring buffer of the latest entries.
use vstd::prelude::*;
use vstd::string::StringSliceAdditionalSpecFns;
use crate::bytes::Address;
use crate::text::{field_text, pad_bytes, padded, stored_text, utf8_lossy};

verus! {

broadcast use vstd::array::group_array_axioms;

/// Number of entries the trail keeps.
pub const AUDIT_TRAIL_CAPACITY: usize = 8;

/// One logged agent action, with its texts in fixed-width fields.
#[derive(Clone, Copy, Debug)]
pub struct AuditEntry {
    /// Position of the entry among all entries ever logged.
    pub index: u32,
    pub action_type: [u8; 16],
    pub protocol: [u8; 16],
    pub description: [u8; 64],
    /// Whether the action was executed, rather than only proposed.
    pub executed: bool,
    pub success: bool,
    pub timestamp: i64,
}

/// Whether `e` is the empty entry: all fields zero or false.
pub open spec fn is_blank_entry(e: AuditEntry) -> bool {
    &&& e.index == 0
    &&& forall|i: int| 0 <= i < 16 ==> e.action_type[i] == 0 && e.protocol[i] == 0
    &&& forall|i: int| 0 <= i < 64 ==> e.description[i] == 0
    &&& !e.executed
    &&& !e.success
    &&& e.timestamp == 0
}

impl Default for AuditEntry {
    fn default() -> (e: AuditEntry)
        ensures
            is_blank_entry(e),
    {
        AuditEntry {
            index: 0,
            action_type: [0u8; 16],
            protocol: [0u8; 16],
            description: [0u8; 64],
            executed: false,
            success: false,
            timestamp: 0,
        }
    }
}

impl AuditEntry {
    /// An entry whose texts are cut to their fields' widths.
    pub fn new(
        index: u32,
        action_type: &str,
        protocol: &str,
        description: &str,
        executed: bool,
        success: bool,
        timestamp: i64,
    ) -> (e: AuditEntry)
        ensures
            e.index == index,
            e.action_type@ == padded(action_type.spec_bytes(), 16),
            e.protocol@ == padded(protocol.spec_bytes(), 16),
            e.description@ == padded(description.spec_bytes(), 64),
            e.executed == executed,
            e.success == success,
            e.timestamp == timestamp,
    {
        AuditEntry {
            index,
            action_type: pad_bytes(action_type),
            protocol: pad_bytes(protocol),
            description: pad_bytes(description),
            executed,
            success,
            timestamp,
        }
    }

    pub fn action_type_str(&self) -> (r: String)
        ensures
            r@ == utf8_lossy(stored_text(self.action_type@)),
    {
        field_text(self.action_type.as_slice())
    }

    pub fn protocol_str(&self) -> (r: String)
        ensures
            r@ == utf8_lossy(stored_text(self.protocol@)),
    {
        field_text(self.protocol.as_slice())
    }

    pub fn description_str(&self) -> (r: String)
        ensures
            r@ == utf8_lossy(stored_text(self.description@)),
    {
        field_text(self.description.as_slice())
    }
}

/// The latest agent actions of one owner.
///
/// `head` is where the next entry goes (modulo the capacity) and wraps at
/// the end of `u32`, whose range the capacity divides; `count` is the
/// number of entries ever logged, held at `u32::MAX`.
#[derive(Clone, Copy, Debug)]
pub struct AuditTrail {
    pub owner: Address,
    pub head: u32,
    pub count: u32,
    pub entries: [AuditEntry; AUDIT_TRAIL_CAPACITY],
}

/// The slot of the entry logged `i + 1` appends before `head`.
pub open spec fn slot_before(head: u32, i: int) -> int {
    (head as int - 1 - i) % (AUDIT_TRAIL_CAPACITY as int)
}

/// Number of entries that `recent(n)` returns.
pub open spec fn recent_len(trail: AuditTrail, n: usize) -> int {
    let kept = if trail.count < AUDIT_TRAIL_CAPACITY { trail.count as int } else { AUDIT_TRAIL_CAPACITY as int };
    if n < kept { n as int } else { kept }
}

impl AuditTrail {
    /// An empty trail of `owner`.
    pub fn new(owner: Address) -> (t: AuditTrail)
        ensures
            t.owner == owner,
            t.head == 0,
            t.count == 0,
            forall|i: int| 0 <= i < AUDIT_TRAIL_CAPACITY ==> is_blank_entry(#[trigger] t.entries[i]),
    {
        let blank = AuditEntry::default();
        AuditTrail { owner, head: 0, count: 0, entries: [blank; AUDIT_TRAIL_CAPACITY] }
    }

    /// Logs `entry`, overwriting the oldest entry when the trail is full.
    pub fn append(&mut self, entry: AuditEntry)
        ensures
            final(self).owner == old(self).owner,
            final(self).entries@ == old(self).entries@.update(
                old(self).head as int % AUDIT_TRAIL_CAPACITY as int,
                entry,
            ),
            final(self).head == (old(self).head as int + 1) % 0x1_0000_0000,
            final(self).count == if old(self).count == u32::MAX {
                u32::MAX as int
            } else {
                old(self).count + 1
            },
    {
        let idx = (self.head as usize) % AUDIT_TRAIL_CAPACITY;
        self.entries[idx] = entry;
        self.head = self.head.wrapping_add(1);
        self.count = self.count.saturating_add(1);
    }

    /// The latest `n` entries, newest first; no more than the trail holds.
    pub fn recent(&self, n: usize) -> (r: Vec<AuditEntry>)
        ensures
            r@.len() == recent_len(*self, n),
            forall|i: int| 0 <= i < r@.len() ==> #[trigger] r@[i] == self.entries@[slot_before(self.head, i)],
    {
        let effective_count = if (self.count as usize) < AUDIT_TRAIL_CAPACITY {
            self.count as usize
        } else {
            AUDIT_TRAIL_CAPACITY
        };
        let take = if n < effective_count { n } else { effective_count };
        let mut result: Vec<AuditEntry> = Vec::new();
        let mut i: usize = 0;
        while i < take
            invariant
                take <= AUDIT_TRAIL_CAPACITY,
                take == recent_len(*self, n),
                i <= take,
                result@.len() == i,
                forall|j: int| 0 <= j < i ==> #[trigger] result@[j] == self.entries@[slot_before(self.head, j)],
            decreases take - i,
        {
            let head = self.head as usize;
            let idx = if head > i {
                (head - 1 - i) % AUDIT_TRAIL_CAPACITY
            } else {
                (AUDIT_TRAIL_CAPACITY + head - 1 - i) % AUDIT_TRAIL_CAPACITY
            };
            assert(idx == slot_before(self.head, i as int)) by {
                let x = head as int - 1 - i as int;
                if head <= i {
                    assert(-8 <= x < 0);
                    assert((8 + x) % 8 == x % 8) by (nonlinear_arith)
                        requires -8 <= x < 0;
                }
            }
            result.push(self.entries[idx]);
            i = i + 1;
        }
        result
    }
}

} // verus!
