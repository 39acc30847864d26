//! Core data model: addresses, object identifiers, ownership, versioned
//! object records, transfer intents, and the deterministic digest scheme
//! that ties them together.

use vstd::prelude::*;

verus! {

/// A ledger participant's account address.
#[derive(Clone, Copy, PartialEq, Eq, Structural, Debug, Hash)]
pub struct Address {
    pub value: u64,
}

/// Identifier of an on-chain object.  The zero identifier is reserved and
/// never names a real object.
#[derive(Clone, Copy, PartialEq, Eq, Structural, Debug, Hash)]
pub struct ObjectId {
    pub value: u64,
}

/// Who may mutate an object.  Address-owned objects are exclusive to one
/// address; shared objects require the ordered path; immutable objects are
/// never mutated.
#[derive(Clone, Copy, PartialEq, Eq, Structural, Debug)]
pub enum Owner {
    Address { addr: Address },
    Shared,
    Immutable,
}

/// A fully-qualified input reference: a transaction names the exact
/// `(id, version, digest)` triple it expects to find in the store.
#[derive(Clone, Copy, PartialEq, Eq, Structural, Debug)]
pub struct ObjectRef {
    pub id: ObjectId,
    pub version: u64,
    pub digest: u64,
}

/// One versioned object record as held by the object store.  The version
/// strictly increases on every mutation and the digest is recomputed from
/// the record's contents, so a stale input reference never matches.
#[derive(Clone, Copy, PartialEq, Eq, Structural, Debug)]
pub struct ObjectRecord {
    pub id: ObjectId,
    pub version: u64,
    pub owner: Owner,
    pub digest: u64,
    pub balance: u64,
}

impl ObjectRecord {
    /// The input reference that currently matches this record.
    pub open spec fn spec_object_ref(self) -> ObjectRef {
        ObjectRef { id: self.id, version: self.version, digest: self.digest }
    }

    /// Compute the reference a client must quote to use this record as a
    /// transaction input.
    pub fn object_ref(&self) -> (r: ObjectRef)
        ensures
            r == self.spec_object_ref(),
    {
        ObjectRef { id: self.id, version: self.version, digest: self.digest }
    }
}

/// A client's declared intent to move `amount` out of the object named by
/// `source` to `recipient`.  Immutable after construction; self-transfer
/// (`recipient == sender`) is legal.
#[derive(Clone, Copy, PartialEq, Eq, Structural, Debug)]
pub struct TransferIntent {
    pub sender: Address,
    pub source: ObjectRef,
    pub recipient: Address,
    pub amount: u64,
}

} // verus!
