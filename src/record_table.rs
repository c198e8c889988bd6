use vstd::prelude::*;

use crate::types::ContractError;

verus! {

/// A fixed-capacity store of records with monotonic identifiers.
///
/// The `k`-th record inserted gets identifier `k` and is kept at position `k`,
/// so identifiers are never reused and lookup by identifier is exact.
/// Records are never removed.
pub struct RecordTable<T> {
    records: Vec<T>,
    capacity: u32,
}

impl<T> View for RecordTable<T> {
    type V = Seq<T>;

    /// The records in order of insertion: the one with identifier `k` is `self@[k]`.
    closed spec fn view(&self) -> Seq<T> {
        self.records@
    }
}

impl<T: Copy> RecordTable<T> {
    /// The most records the table will ever hold.
    pub closed spec fn spec_capacity(&self) -> nat {
        self.capacity as nat
    }

    /// The table holds no more records than its capacity, and every
    /// identifier fits in a `u32`.
    pub open spec fn wf(&self) -> bool {
        &&& self@.len() <= self.spec_capacity()
        &&& self.spec_capacity() <= u32::MAX
    }

    /// The identifier that the next insertion will get.
    pub open spec fn spec_next_id(&self) -> nat {
        self@.len()
    }

    /// The record with identifier `id`, if there is one.
    pub open spec fn spec_find(&self, id: u32) -> Option<T> {
        if (id as nat) < self@.len() {
            Some(self@[id as int])
        } else {
            None
        }
    }

    /// An empty table that will hold at most `capacity` records.
    pub fn new(capacity: u32) -> (r: RecordTable<T>)
        ensures
            r.wf(),
            r@.len() == 0,
            r.spec_capacity() == capacity,
    {
        RecordTable { records: Vec::new(), capacity }
    }

    /// The most records the table will ever hold.
    pub fn capacity(&self) -> (r: u32)
        ensures
            r == self.spec_capacity(),
    {
        self.capacity
    }

    /// The number of records stored.
    pub fn len(&self) -> (r: usize)
        ensures
            r == self@.len(),
    {
        self.records.len()
    }

    /// The identifier that the next insertion will get, or `None` when the
    /// table is full.
    pub fn next_id(&self) -> (r: Option<u32>)
        requires
            self.wf(),
        ensures
            self.spec_next_id() < self.spec_capacity() ==> r == Some(self.spec_next_id() as u32),
            self.spec_next_id() >= self.spec_capacity() ==> r is None,
    {
        if self.records.len() < self.capacity as usize {
            Some(self.records.len() as u32)
        } else {
            None
        }
    }

    /// Stores `record` under the next identifier and returns that identifier;
    /// fails with `StorageFull`, changing nothing, when the table is full.
    pub fn insert(&mut self, record: T) -> (r: Result<u32, ContractError>)
        requires
            old(self).wf(),
        ensures
            final(self).wf(),
            final(self).spec_capacity() == old(self).spec_capacity(),
            old(self)@.len() < old(self).spec_capacity() ==> r == Ok::<u32, ContractError>(
                old(self)@.len() as u32,
            ) && final(self)@ == old(self)@.push(record),
            old(self)@.len() >= old(self).spec_capacity() ==> r == Err::<u32, ContractError>(
                ContractError::StorageFull,
            ) && final(self)@ == old(self)@,
    {
        if self.records.len() < self.capacity as usize {
            let id = self.records.len() as u32;
            self.records.push(record);
            Ok(id)
        } else {
            Err(ContractError::StorageFull)
        }
    }

    /// The record with identifier `id`, if there is one.
    pub fn find(&self, id: u32) -> (r: Option<T>)
        ensures
            r == self.spec_find(id),
    {
        if (id as usize) < self.records.len() {
            Some(self.records[id as usize])
        } else {
            None
        }
    }

    /// Replaces the record with identifier `id`; fails with `NotFound`,
    /// changing nothing, when there is none.
    pub fn update(&mut self, id: u32, record: T) -> (r: Result<(), ContractError>)
        requires
            old(self).wf(),
        ensures
            final(self).wf(),
            final(self).spec_capacity() == old(self).spec_capacity(),
            (id as nat) < old(self)@.len() ==> r == Ok::<(), ContractError>(())
                && final(self)@ == old(self)@.update(id as int, record),
            (id as nat) >= old(self)@.len() ==> r == Err::<(), ContractError>(
                ContractError::NotFound,
            ) && final(self)@ == old(self)@,
    {
        if (id as usize) < self.records.len() {
            self.records.set(id as usize, record);
            Ok(())
        } else {
            Err(ContractError::NotFound)
        }
    }
}

} // verus!
