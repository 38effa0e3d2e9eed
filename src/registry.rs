//! The keyed stores of batches and manufacturers, and the audit log.
use vstd::prelude::*;
use crate::address::{batch_address, bytes_equal, Identity};
use crate::events::Event;
use crate::state::{Batch, BatchStatus};
use crate::validation::stored_fields_ok;

verus! {

/// A stored batch together with the address it is kept under.
#[derive(Clone, Debug)]
pub struct BatchAccount {
    pub address: Vec<u8>,
    pub batch: Batch,
}

/// The registry entry of one manufacturer. Created once, never changed.
#[derive(Clone, Copy, Debug)]
pub struct ManufacturerRegistry {
    pub manufacturer: Identity,
    pub is_verified: bool,
    pub registered_at: i64,
}

/// All registry state: batches keyed by address, manufacturer entries keyed by
/// identity, and the append-only audit log.
pub struct Registry {
    /// When set, only verified manufacturers may create batches.
    pub manufacturer_gate: bool,
    pub batches: Vec<BatchAccount>,
    pub manufacturers: Vec<ManufacturerRegistry>,
    pub events: Vec<Event>,
}

/// `a` with its batch moved to `status` at time `now`.
pub open spec fn with_status(a: BatchAccount, status: BatchStatus, now: i64) -> BatchAccount {
    BatchAccount { batch: Batch { status, updated_at: now, ..a.batch }, ..a }
}

impl Registry {
    /// Every batch is stored under the address derived from its owner and
    /// identifier, every stored batch meets the field rules, no two batches
    /// share an address, and no manufacturer has two entries.
    pub open spec fn wf(&self) -> bool {
        &&& forall|i: int|
            #![trigger self.batches@[i]]
            0 <= i < self.batches@.len() ==> {
                &&& self.batches@[i].address@ == batch_address(
                    self.batches@[i].batch.manufacturer@,
                    self.batches@[i].batch.batch_id@,
                )
                &&& stored_fields_ok(self.batches@[i].batch)
            }
        &&& forall|i: int, j: int|
            0 <= i < self.batches@.len() && 0 <= j < self.batches@.len() && i != j
                ==> #[trigger] self.batches@[i].address@ != #[trigger] self.batches@[j].address@
        &&& forall|i: int, j: int|
            0 <= i < self.manufacturers@.len() && 0 <= j < self.manufacturers@.len() && i != j
                ==> #[trigger] self.manufacturers@[i].manufacturer@
                != #[trigger] self.manufacturers@[j].manufacturer@
    }

    /// Whether a batch is stored at `address`.
    pub open spec fn has_batch(&self, address: Seq<u8>) -> bool {
        exists|i: int| 0 <= i < self.batches@.len() && #[trigger] self.batches@[i].address@ == address
    }

    /// The position of the batch stored at `address` (meaningful when `has_batch`).
    pub open spec fn batch_index(&self, address: Seq<u8>) -> int {
        choose|i: int| 0 <= i < self.batches@.len() && #[trigger] self.batches@[i].address@ == address
    }

    /// The batch stored at `address` (meaningful when `has_batch`).
    pub open spec fn batch_at(&self, address: Seq<u8>) -> Batch {
        self.batches@[self.batch_index(address)].batch
    }

    /// Whether `owner` has a registry entry.
    pub open spec fn has_manufacturer(&self, owner: Seq<u8>) -> bool {
        exists|i: int|
            0 <= i < self.manufacturers@.len() && #[trigger] self.manufacturers@[i].manufacturer@
                == owner
    }

    /// Whether `owner` has a registry entry marked verified.
    pub open spec fn is_verified(&self, owner: Seq<u8>) -> bool {
        exists|i: int|
            0 <= i < self.manufacturers@.len() && #[trigger] self.manufacturers@[i].manufacturer@
                == owner && self.manufacturers@[i].is_verified
    }

    /// In a well-formed registry the batch at position `i` is the one found
    /// at its own address.
    pub proof fn lemma_index_of_address(&self, i: int)
        requires
            self.wf(),
            0 <= i < self.batches@.len(),
        ensures
            self.has_batch(self.batches@[i].address@),
            self.batch_index(self.batches@[i].address@) == i,
    {
        let a = self.batches@[i].address@;
        assert(self.has_batch(a));
        let j = self.batch_index(a);
        assert(self.batches@[j].address@ == a);
        if j != i {
            assert(self.batches@[i].address@ != self.batches@[j].address@);
        }
    }

    /// An empty registry; `manufacturer_gate` decides whether creating a batch
    /// needs a verified manufacturer entry.
    pub fn new(manufacturer_gate: bool) -> (r: Registry)
        ensures
            r.wf(),
            r.manufacturer_gate == manufacturer_gate,
            r.batches@.len() == 0,
            r.manufacturers@.len() == 0,
            r.events@.len() == 0,
    {
        Registry {
            manufacturer_gate,
            batches: Vec::new(),
            manufacturers: Vec::new(),
            events: Vec::new(),
        }
    }

    /// The position of the batch stored at `address`, if there is one.
    pub fn find_batch(&self, address: &[u8]) -> (r: Option<usize>)
        requires
            self.wf(),
        ensures
            r is Some <==> self.has_batch(address@),
            r matches Some(i) ==> i == self.batch_index(address@) && i < self.batches@.len()
                && self.batches@[i as int].address@ == address@,
    {
        let mut i: usize = 0;
        while i < self.batches.len()
            invariant
                self.wf(),
                i <= self.batches@.len(),
                forall|k: int| 0 <= k < i ==> #[trigger] self.batches@[k].address@ != address@,
            decreases self.batches@.len() - i,
        {
            if bytes_equal(self.batches[i].address.as_slice(), address) {
                assert(self.has_batch(address@));
                let ghost j = self.batch_index(address@);
                assert(self.batches@[j].address@ == address@);
                assert(j == i as int) by {
                    if j != i as int {
                        assert(self.batches@[i as int].address@ != self.batches@[j].address@);
                    }
                }
                return Some(i);
            }
            i = i + 1;
        }
        None
    }

    /// The batch stored at `address`, if there is one.
    pub fn get_batch(&self, address: &[u8]) -> (r: Option<&Batch>)
        requires
            self.wf(),
        ensures
            r is Some <==> self.has_batch(address@),
            r matches Some(b) ==> *b == self.batch_at(address@),
    {
        match self.find_batch(address) {
            Some(i) => Some(&self.batches[i].batch),
            None => None,
        }
    }

    /// Moves the batch at position `i` to `status`, stamping it with `now`.
    /// Nothing else changes.
    pub fn set_status(&mut self, i: usize, status: BatchStatus, now: i64)
        requires
            old(self).wf(),
            i < old(self).batches@.len(),
        ensures
            final(self).wf(),
            final(self).batches@ == old(self).batches@.update(
                i as int,
                with_status(old(self).batches@[i as int], status, now),
            ),
            final(self).manufacturer_gate == old(self).manufacturer_gate,
            final(self).manufacturers == old(self).manufacturers,
            final(self).events == old(self).events,
            final(self).has_batch(old(self).batches@[i as int].address@),
            final(self).batch_at(old(self).batches@[i as int].address@) == with_status(
                old(self).batches@[i as int],
                status,
                now,
            ).batch,
    {
        let ghost pre = *self;
        let mut account = self.batches.remove(i);
        account.batch.status = status;
        account.batch.updated_at = now;
        self.batches.insert(i, account);
        proof {
            assert(self.batches@ =~= pre.batches@.update(
                i as int,
                with_status(pre.batches@[i as int], status, now),
            ));
            assert forall|j: int, k: int|
                0 <= j < self.batches@.len() && 0 <= k < self.batches@.len() && j != k
                    implies #[trigger] self.batches@[j].address@
                != #[trigger] self.batches@[k].address@ by {
                assert(self.batches@[j].address@ == pre.batches@[j].address@);
                assert(self.batches@[k].address@ == pre.batches@[k].address@);
            }
            assert forall|j: int| 0 <= j < self.batches@.len() implies {
                &&& #[trigger] self.batches@[j].address@ == batch_address(
                    self.batches@[j].batch.manufacturer@,
                    self.batches@[j].batch.batch_id@,
                )
                &&& stored_fields_ok(self.batches@[j].batch)
            } by {
                assert(pre.batches@[j].address@ == batch_address(
                    pre.batches@[j].batch.manufacturer@,
                    pre.batches@[j].batch.batch_id@,
                ));
                assert(stored_fields_ok(pre.batches@[j].batch));
            }
            assert(self.wf());
            self.lemma_index_of_address(i as int);
        }
    }

    /// Whether `owner` has a verified registry entry.
    pub fn manufacturer_verified(&self, owner: &Identity) -> (r: bool)
        requires
            self.wf(),
        ensures
            r == self.is_verified(owner@),
    {
        let mut i: usize = 0;
        while i < self.manufacturers.len()
            invariant
                i <= self.manufacturers@.len(),
                forall|k: int|
                    0 <= k < i ==> !(#[trigger] self.manufacturers@[k].manufacturer@ == owner@
                        && self.manufacturers@[k].is_verified),
            decreases self.manufacturers@.len() - i,
        {
            if self.manufacturers[i].manufacturer.same_as(owner) && self.manufacturers[i].is_verified {
                return true;
            }
            i = i + 1;
        }
        false
    }

    /// Whether `owner` has a registry entry.
    pub fn manufacturer_registered(&self, owner: &Identity) -> (r: bool)
        requires
            self.wf(),
        ensures
            r == self.has_manufacturer(owner@),
    {
        let mut i: usize = 0;
        while i < self.manufacturers.len()
            invariant
                i <= self.manufacturers@.len(),
                forall|k: int| 0 <= k < i ==> #[trigger] self.manufacturers@[k].manufacturer@ != owner@,
            decreases self.manufacturers@.len() - i,
        {
            if self.manufacturers[i].manufacturer.same_as(owner) {
                return true;
            }
            i = i + 1;
        }
        false
    }
}

} // verus!
