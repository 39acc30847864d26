//! Execution effects: the immutable, hashable record of a transaction's
//! outcome, agreed upon identically by all validators, plus the builder
//! that aggregates mutations into it.

use vstd::prelude::*;
use crate::types::{ObjectId, Owner};

verus! {

/// Why a finalized execution attempt did not move any value.
#[derive(Clone, Copy, PartialEq, Eq, Structural, Debug)]
pub enum ExecutionFailureStatus {
    /// The source object held less than the declared amount.
    InsufficientCoinBalance,
}

/// Outcome of a finalized execution attempt.  A `Failure` is a ledger
/// fact, not a submission error: consensus agreed to attempt the
/// transaction, so its failure is recorded.
#[derive(Clone, Copy, PartialEq, Eq, Structural, Debug)]
pub enum ExecutionStatus {
    Success,
    Failure { error: ExecutionFailureStatus },
}

/// Gas accounting for one execution attempt.  The native transfer is a
/// gas-exempt carve-out, so for it every field is zero.
#[derive(Clone, Copy, PartialEq, Eq, Structural, Debug)]
pub struct GasSummary {
    pub computation_cost: u64,
    pub storage_cost: u64,
    pub storage_rebate: u64,
}

impl GasSummary {
    /// The all-zero summary of an unmetered instruction.
    pub open spec fn spec_zero() -> GasSummary {
        GasSummary { computation_cost: 0, storage_cost: 0, storage_rebate: 0 }
    }

    /// What the attempt cost overall: charges minus rebate.
    pub open spec fn spec_net_gas_usage(self) -> int {
        self.computation_cost + self.storage_cost - self.storage_rebate
    }

    /// Build the all-zero summary.
    pub fn zero() -> (g: GasSummary)
        ensures
            g == GasSummary::spec_zero(),
            g.spec_net_gas_usage() == 0,
    {
        GasSummary { computation_cost: 0, storage_cost: 0, storage_rebate: 0 }
    }

    /// Net gas charged.  The rebate may not exceed the charges (nothing
    /// earns gas) and the charges must fit the balance type.
    pub fn net_gas_usage(&self) -> (n: u64)
        requires
            self.computation_cost + self.storage_cost <= u64::MAX,
            self.storage_rebate <= self.computation_cost + self.storage_cost,
        ensures
            n == self.spec_net_gas_usage(),
    {
        self.computation_cost + self.storage_cost - self.storage_rebate
    }
}

/// An object the attempt mutated, at its new version.
#[derive(Clone, Copy, PartialEq, Eq, Structural, Debug)]
pub struct MutatedRef {
    pub id: ObjectId,
    pub new_version: u64,
}

/// An object the attempt created, with its initial owner.
#[derive(Clone, Copy, PartialEq, Eq, Structural, Debug)]
pub struct CreatedRef {
    pub id: ObjectId,
    pub owner: Owner,
}

/// The effects record.  Built exactly once per finalized execution
/// attempt, transferred to the caller by value, and never mutated after
/// construction.
#[derive(Clone, PartialEq, Eq, Debug)]
pub struct TransactionEffects {
    pub status: ExecutionStatus,
    pub mutated: Vec<MutatedRef>,
    pub created: Vec<CreatedRef>,
    pub deleted: Vec<ObjectId>,
    pub gas: GasSummary,
}

/// Two effects records agree on every field validators hash and sign.
pub open spec fn effects_equal(a: TransactionEffects, b: TransactionEffects) -> bool {
    &&& a.status == b.status
    &&& a.mutated@ == b.mutated@
    &&& a.created@ == b.created@
    &&& a.deleted@ == b.deleted@
    &&& a.gas == b.gas
}

/// Aggregates the mutations of one execution attempt and packages them
/// into an immutable [`TransactionEffects`].  Consuming the builder on
/// [`EffectsBuilder::build`] is what makes the record final: no handle
/// remains through which it could change.
pub struct EffectsBuilder {
    status: ExecutionStatus,
    mutated: Vec<MutatedRef>,
    created: Vec<CreatedRef>,
    deleted: Vec<ObjectId>,
    gas: GasSummary,
}

impl EffectsBuilder {
    pub closed spec fn spec_status(self) -> ExecutionStatus {
        self.status
    }

    pub closed spec fn spec_mutated(self) -> Seq<MutatedRef> {
        self.mutated@
    }

    pub closed spec fn spec_created(self) -> Seq<CreatedRef> {
        self.created@
    }

    pub closed spec fn spec_deleted(self) -> Seq<ObjectId> {
        self.deleted@
    }

    pub closed spec fn spec_gas(self) -> GasSummary {
        self.gas
    }

    /// Start from a successful, empty, zero-gas outcome.
    pub fn new() -> (b: EffectsBuilder)
        ensures
            b.spec_status() == ExecutionStatus::Success,
            b.spec_mutated() == Seq::<MutatedRef>::empty(),
            b.spec_created() == Seq::<CreatedRef>::empty(),
            b.spec_deleted() == Seq::<ObjectId>::empty(),
            b.spec_gas() == GasSummary::spec_zero(),
    {
        EffectsBuilder {
            status: ExecutionStatus::Success,
            mutated: Vec::new(),
            created: Vec::new(),
            deleted: Vec::new(),
            gas: GasSummary::zero(),
        }
    }

    /// Record the attempt's outcome.
    pub fn set_status(&mut self, status: ExecutionStatus)
        ensures
            final(self).spec_status() == status,
            final(self).spec_mutated() == old(self).spec_mutated(),
            final(self).spec_created() == old(self).spec_created(),
            final(self).spec_deleted() == old(self).spec_deleted(),
            final(self).spec_gas() == old(self).spec_gas(),
    {
        self.status = status;
    }

    /// Record that the attempt mutated `id`, now at `new_version`.
    pub fn push_mutated(&mut self, id: ObjectId, new_version: u64)
        ensures
            final(self).spec_mutated() == old(self).spec_mutated().push(
                MutatedRef { id, new_version },
            ),
            final(self).spec_status() == old(self).spec_status(),
            final(self).spec_created() == old(self).spec_created(),
            final(self).spec_deleted() == old(self).spec_deleted(),
            final(self).spec_gas() == old(self).spec_gas(),
    {
        self.mutated.push(MutatedRef { id, new_version });
    }

    /// Record that the attempt created `id`, owned by `owner`.
    pub fn push_created(&mut self, id: ObjectId, owner: Owner)
        ensures
            final(self).spec_created() == old(self).spec_created().push(CreatedRef { id, owner }),
            final(self).spec_status() == old(self).spec_status(),
            final(self).spec_mutated() == old(self).spec_mutated(),
            final(self).spec_deleted() == old(self).spec_deleted(),
            final(self).spec_gas() == old(self).spec_gas(),
    {
        self.created.push(CreatedRef { id, owner });
    }

    /// Record that the attempt deleted `id`.
    pub fn push_deleted(&mut self, id: ObjectId)
        ensures
            final(self).spec_deleted() == old(self).spec_deleted().push(id),
            final(self).spec_status() == old(self).spec_status(),
            final(self).spec_mutated() == old(self).spec_mutated(),
            final(self).spec_created() == old(self).spec_created(),
            final(self).spec_gas() == old(self).spec_gas(),
    {
        self.deleted.push(id);
    }

    /// Record the gas summary of the attempt.
    pub fn set_gas(&mut self, gas: GasSummary)
        ensures
            final(self).spec_gas() == gas,
            final(self).spec_status() == old(self).spec_status(),
            final(self).spec_mutated() == old(self).spec_mutated(),
            final(self).spec_created() == old(self).spec_created(),
            final(self).spec_deleted() == old(self).spec_deleted(),
    {
        self.gas = gas;
    }

    /// Package the aggregate into the immutable effects record, consuming
    /// the builder.
    pub fn build(self) -> (e: TransactionEffects)
        ensures
            e.status == self.spec_status(),
            e.mutated@ == self.spec_mutated(),
            e.created@ == self.spec_created(),
            e.deleted@ == self.spec_deleted(),
            e.gas == self.spec_gas(),
    {
        TransactionEffects {
            status: self.status,
            mutated: self.mutated,
            created: self.created,
            deleted: self.deleted,
            gas: self.gas,
        }
    }
}

} // verus!
