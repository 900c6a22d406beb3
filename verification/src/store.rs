use vstd::prelude::*;
use vstd::bytes::{lemma_auto_spec_u64_to_from_le_bytes, spec_u64_from_le_bytes,
    spec_u64_to_le_bytes, u64_to_le_bytes};
use crate::errors::StoreError;
use crate::records::ConnectionRecord;

verus! {

/// The namespace tag under which connection records are stored.
pub const CONNECTION_NAMESPACE: u8 = 1;

/// The deterministic storage address of the connection record with the given
/// identifier: the namespace tag followed by the little-endian encoding of
/// the identifier. Creation and every later lookup recompute this address
/// from the identifier alone; no separate index exists.
pub open spec fn spec_record_address(connection_id: u64) -> Seq<u8> {
    seq![CONNECTION_NAMESPACE] + spec_u64_to_le_bytes(connection_id)
}

pub fn record_address(connection_id: u64) -> (addr: Vec<u8>)
    ensures
        addr@ == spec_record_address(connection_id),
{
    let mut addr: Vec<u8> = Vec::new();
    addr.push(CONNECTION_NAMESPACE);
    let mut tail: Vec<u8> = u64_to_le_bytes(connection_id);
    addr.append(&mut tail);
    proof {
        assert(addr@ =~= spec_record_address(connection_id));
    }
    addr
}

/// Distinct identifiers derive distinct storage addresses, so two creation
/// attempts can only collide at the storage layer when they target the same
/// identifier.
pub proof fn lemma_record_address_injective(a: u64, b: u64)
    ensures
        spec_record_address(a) == spec_record_address(b) ==> a == b,
{
    lemma_auto_spec_u64_to_from_le_bytes();
    if spec_record_address(a) == spec_record_address(b) {
        assert(spec_u64_to_le_bytes(a) =~= spec_u64_to_le_bytes(b)) by {
            assert forall|i: int| 0 <= i < 8 implies spec_u64_to_le_bytes(a)[i]
                == spec_u64_to_le_bytes(b)[i] by {
                assert(spec_record_address(a)[i + 1] == spec_record_address(b)[i + 1]);
            }
        };
        assert(spec_u64_from_le_bytes(spec_u64_to_le_bytes(a)) == spec_u64_from_le_bytes(
            spec_u64_to_le_bytes(b),
        ));
    }
}

/// Durable record storage with deterministic addresses: one slot per derived
/// address, an atomic create that fails on an occupied address, and lookups
/// that recompute the address from the identifier (see
/// `lemma_record_address_injective`: occupancy of the derived address is
/// occupancy of the identifier). The atomic create is the sole concurrency
/// guard — of two racing creations for one identifier the second one fails.
pub struct RecordStore {
    pub records: Vec<ConnectionRecord>,
}

impl RecordStore {
    /// Some stored record carries this identifier; equivalently, the derived
    /// storage address is occupied.
    pub open spec fn contains_id(self, connection_id: u64) -> bool {
        exists|i: int|
            0 <= i < self.records@.len() && self.records@[i].connection_id == connection_id
    }

    /// Well-formed storage: no two slots share an identifier (their derived
    /// addresses would collide), and each record satisfies its field bounds.
    pub open spec fn wf(self) -> bool {
        &&& forall|i: int, j: int|
            0 <= i < self.records@.len() && 0 <= j < self.records@.len() && i != j
                ==> self.records@[i].connection_id != self.records@[j].connection_id
        &&& forall|i: int| 0 <= i < self.records@.len() ==> self.records@[i].wf()
    }

    pub fn new() -> (s: RecordStore)
        ensures
            s.records@.len() == 0,
            s.wf(),
    {
        RecordStore { records: Vec::new() }
    }

    /// The slot index holding `connection_id`, if that identifier is present.
    pub fn find_index(&self, connection_id: u64) -> (r: Option<usize>)
        ensures
            match r {
                Some(i) => i < self.records@.len() && self.records@[i as int].connection_id
                    == connection_id,
                None => !self.contains_id(connection_id),
            },
{
        let mut i: usize = 0;
        while i < self.records.len()
            invariant
                i <= self.records@.len(),
                forall|j: int| 0 <= j < i ==> self.records@[j].connection_id != connection_id,
            decreases self.records@.len() - i,
        {
            if self.records[i].connection_id == connection_id {
                return Some(i);
            }
            i = i + 1;
        }
        None
    }

    /// Looks a record up by its identifier.
    pub fn get(&self, connection_id: u64) -> (r: Option<&ConnectionRecord>)
        ensures
            match r {
                Some(rec) => {
                    &&& self.contains_id(connection_id)
                    &&& rec.connection_id == connection_id
                    &&& exists|i: int|
                        0 <= i < self.records@.len() && self.records@[i] == *rec
                },
                None => !self.contains_id(connection_id),
            },
    {
        match self.find_index(connection_id) {
            Some(i) => {
                let rec = &self.records[i];
                proof {
                    assert(self.records@[i as int].connection_id == connection_id);
                }
                Some(rec)
            },
            None => None,
        }
    }

    /// Atomically creates a record at the address derived from its
    /// identifier; fails, changing nothing, if that address is occupied.
    pub fn create(&mut self, record: ConnectionRecord) -> (r: Result<(), StoreError>)
        ensures
            old(self).contains_id(record.connection_id) ==> r == Err::<(), StoreError>(
                StoreError::AlreadyExists,
            ) && final(self).records@ == old(self).records@,
            !old(self).contains_id(record.connection_id) ==> r == Ok::<(), StoreError>(())
                && final(self).records@ == old(self).records@.push(record),
    {
        let occupied = self.find_index(record.connection_id);
        match occupied {
            Some(i) => {
                proof {
                    assert(self.records@[i as int].connection_id == record.connection_id);
                }
                Err(StoreError::AlreadyExists)
            },
            None => {
                self.records.push(record);
                Ok(())
            },
        }
    }
}

} // verus!
