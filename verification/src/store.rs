//! Object store view: a versioned key-value arena mapping an object
//! identifier to its current record.
//!
//! Mutation goes through an explicit expected-version check, failing fast
//! on mismatch instead of blocking: at most one transaction can consume a
//! given `(id, version)` pair, which serialises all writers of an
//! address-owned object without any lock.

use vstd::prelude::*;
use std::collections::HashMap;
use crate::types::{ObjectId, ObjectRecord};

verus! {

broadcast use vstd::std_specs::hash::group_hash_axioms;

/// The versioned object arena.  Each record is stored under its own
/// identifier; the well-formedness invariant ties key and record together.
pub struct ObjectStore {
    map: HashMap<u64, ObjectRecord>,
}

impl ObjectStore {
    /// Mathematical contents: object identifier value to current record.
    pub closed spec fn contents(self) -> Map<u64, ObjectRecord> {
        self.map@
    }

    /// Every record sits under the key of its own identifier.
    pub open spec fn wf(self) -> bool {
        forall|k: u64| #[trigger]
            self.contents().contains_key(k) ==> self.contents()[k].id.value == k
    }

    /// An empty store.
    pub fn new() -> (s: Self)
        ensures
            s.wf(),
            s.contents() == Map::<u64, ObjectRecord>::empty(),
    {
        ObjectStore { map: HashMap::new() }
    }

    /// Whether an object with this identifier currently exists.
    pub fn contains(&self, id: ObjectId) -> (b: bool)
        ensures
            b == self.contents().contains_key(id.value),
    {
        self.map.contains_key(&id.value)
    }

    /// Query interface: the current record for `id`, or `None` if no such
    /// object exists.
    pub fn get(&self, id: ObjectId) -> (r: Option<ObjectRecord>)
        ensures
            r == if self.contents().contains_key(id.value) {
                Some(self.contents()[id.value])
            } else {
                None::<ObjectRecord>
            },
    {
        match self.map.get(&id.value) {
            Some(rec) => Some(*rec),
            None => None,
        }
    }

    /// Number of live objects.
    pub fn len(&self) -> (n: usize)
        ensures
            n == self.contents().len(),
    {
        self.map.len()
    }

    /// Insert a brand-new object.  Succeeds exactly when no object with
    /// this identifier exists yet; an occupied identifier is left intact.
    pub fn insert_new(&mut self, record: ObjectRecord) -> (ok: bool)
        requires
            old(self).wf(),
        ensures
            final(self).wf(),
            ok == !old(self).contents().contains_key(record.id.value),
            final(self).contents() == if ok {
                old(self).contents().insert(record.id.value, record)
            } else {
                old(self).contents()
            },
    {
        if self.map.contains_key(&record.id.value) {
            false
        } else {
            self.map.insert(record.id.value, record);
            true
        }
    }

    /// Replace the record of an existing object, but only if the caller
    /// quotes the version currently in the store and the replacement
    /// strictly increases it.  This is the optimistic concurrency check:
    /// a stale or out-of-order writer fails fast and changes nothing.
    pub fn replace_versioned(&mut self, expected_version: u64, record: ObjectRecord) -> (ok: bool)
        requires
            old(self).wf(),
        ensures
            final(self).wf(),
            ok == (old(self).contents().contains_key(record.id.value)
                && old(self).contents()[record.id.value].version == expected_version
                && record.version > expected_version),
            final(self).contents() == if ok {
                old(self).contents().insert(record.id.value, record)
            } else {
                old(self).contents()
            },
    {
        match self.map.get(&record.id.value) {
            Some(current) => {
                if current.version == expected_version && record.version > expected_version {
                    self.map.insert(record.id.value, record);
                    true
                } else {
                    false
                }
            },
            None => false,
        }
    }
}

} // verus!
