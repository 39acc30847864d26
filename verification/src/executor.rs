//! Native transfer executor: applies one validated transfer against the
//! object store, producing a new source-object version and a newly
//! created destination object, with zero fee.
//!
//! The whole design exists to guarantee determinism: every validator
//! executing the same intent against the same prior state must produce
//! identical effects.  [`spec_execution_result`] pins the outcome — the
//! verdict, the effects record field by field, and the posterior store —
//! as a mathematical function of intent and prior state, and
//! [`execute`] is proved to satisfy it.

use vstd::prelude::*;
use crate::digest::{spec_derived_id, spec_intent_digest, spec_record_digest, derived_id, intent_digest, record_digest};
use crate::effects::{EffectsBuilder, ExecutionFailureStatus, ExecutionStatus, GasSummary, MutatedRef, CreatedRef, TransactionEffects};
use crate::store::ObjectStore;
use crate::types::{ObjectId, ObjectRecord, ObjectRef, Owner, TransferIntent};
use crate::validity::spec_check;

verus! {

/// Admission-time hard rejections raised by the executor itself.  A
/// transaction rejected here is a client error: it is never finalized and
/// leaves no ledger trace.
#[derive(Clone, Copy, PartialEq, Eq, Structural, Debug)]
pub enum HardRejection {
    /// The source object is absent, or its stored `(version, digest)`
    /// does not match the reference the transaction quotes.
    ObjectVersionMismatch,
    /// The source object is not exclusively owned by the sender.
    IncorrectSigner,
}

impl HardRejection {
    /// A human-readable account of the rejection, for reporting back to
    /// the submitter.
    pub fn describe(&self) -> &'static str {
        match self {
            HardRejection::ObjectVersionMismatch => "referenced object version or digest does not match the current object",
            HardRejection::IncorrectSigner => "source object is not owned by the sender",
        }
    }
}

/// The input reference quotes exactly the store's current record.
pub open spec fn spec_ref_matches(s: Map<u64, ObjectRecord>, r: ObjectRef) -> bool {
    &&& s.contains_key(r.id.value)
    &&& s[r.id.value].version == r.version
    &&& s[r.id.value].digest == r.digest
}

/// Which hard rejection, if any, this intent meets against this state.
pub open spec fn spec_admission(intent: TransferIntent, s: Map<u64, ObjectRecord>) -> Option<
    HardRejection,
> {
    if !spec_ref_matches(s, intent.source) {
        Some(HardRejection::ObjectVersionMismatch)
    } else if s[intent.source.id.value].owner != (Owner::Address { addr: intent.sender }) {
        Some(HardRejection::IncorrectSigner)
    } else {
        None
    }
}

/// Identifier of the one object a successful transfer creates, derived
/// from the transaction digest at output index zero.
pub open spec fn spec_created_id(intent: TransferIntent) -> ObjectId {
    spec_derived_id(spec_intent_digest(intent), 0)
}

/// The source record after a successful transfer: balance decremented,
/// version bumped by one, digest recomputed, owner unchanged.
pub open spec fn spec_new_source(intent: TransferIntent, s: Map<u64, ObjectRecord>) -> ObjectRecord {
    let cur = s[intent.source.id.value];
    let version = (cur.version + 1) as u64;
    let balance = (cur.balance - intent.amount) as u64;
    ObjectRecord {
        id: cur.id,
        version,
        owner: cur.owner,
        digest: spec_record_digest(cur.id, version, cur.owner, balance),
        balance,
    }
}

/// The destination record a successful transfer creates: a brand-new
/// object at version one, owned by the recipient, holding the amount.
pub open spec fn spec_created_record(intent: TransferIntent) -> ObjectRecord {
    let id = spec_created_id(intent);
    let owner = Owner::Address { addr: intent.recipient };
    ObjectRecord {
        id,
        version: 1,
        owner,
        digest: spec_record_digest(id, 1, owner, intent.amount),
        balance: intent.amount,
    }
}

/// The store after a successful transfer: source replaced, destination
/// inserted, nothing else touched.
pub open spec fn spec_post_store(intent: TransferIntent, s: Map<u64, ObjectRecord>) -> Map<
    u64,
    ObjectRecord,
> {
    s.insert(intent.source.id.value, spec_new_source(intent, s)).insert(
        spec_created_id(intent).value,
        spec_created_record(intent),
    )
}

/// Effects of a successful transfer: exactly one mutation (the source at
/// its new version), exactly one creation (the destination, owned by the
/// recipient), no deletion, zero gas.
pub open spec fn spec_success_effects(
    e: TransactionEffects,
    intent: TransferIntent,
    s: Map<u64, ObjectRecord>,
) -> bool {
    &&& e.status == ExecutionStatus::Success
    &&& e.mutated@ == seq![
        (MutatedRef { id: intent.source.id, new_version: spec_new_source(intent, s).version }),
    ]
    &&& e.created@ == seq![
        (CreatedRef { id: spec_created_id(intent), owner: Owner::Address { addr: intent.recipient } }),
    ]
    &&& e.deleted@ == Seq::<ObjectId>::empty()
    &&& e.gas == GasSummary::spec_zero()
}

/// Effects of a soft failure: a recorded insufficient-balance status with
/// zero mutations and zero gas.
pub open spec fn spec_insufficient_effects(e: TransactionEffects) -> bool {
    &&& e.status == (ExecutionStatus::Failure {
        error: ExecutionFailureStatus::InsufficientCoinBalance,
    })
    &&& e.mutated@ == Seq::<MutatedRef>::empty()
    &&& e.created@ == Seq::<CreatedRef>::empty()
    &&& e.deleted@ == Seq::<ObjectId>::empty()
    &&& e.gas == GasSummary::spec_zero()
}

/// The executor's complete outcome as a function of intent and prior
/// state: `r` is the verdict and `s2` the posterior store.  A hard
/// rejection or a soft failure leaves the store untouched; a success
/// replaces the source and mints the destination.  Any two runs
/// satisfying this predicate from the same `(intent, s)` agree on
/// everything, which is the determinism the design owes.
pub open spec fn spec_execution_result(
    intent: TransferIntent,
    s: Map<u64, ObjectRecord>,
    r: Result<TransactionEffects, HardRejection>,
    s2: Map<u64, ObjectRecord>,
) -> bool {
    match spec_admission(intent, s) {
        Some(h) => r == Err::<TransactionEffects, HardRejection>(h) && s2 == s,
        None => {
            if s[intent.source.id.value].balance < intent.amount {
                &&& r matches Ok(e) && spec_insufficient_effects(e)
                &&& s2 == s
            } else {
                &&& r matches Ok(e) && spec_success_effects(e, intent, s)
                &&& s2 == spec_post_store(intent, s)
            }
        },
    }
}

/// Compute the identifier a successful execution of this intent would
/// mint for the destination object.  Lets a caller check, before
/// executing, that the derived identifier is fresh in its store.
pub fn created_object_id(intent: &TransferIntent) -> (r: ObjectId)
    ensures
        r == spec_created_id(*intent),
{
    derived_id(intent_digest(intent), 0)
}

/// Apply one validated transfer.
///
/// Hard rejections (stale reference, wrong owner) come back as `Err` and
/// touch nothing.  An insufficient balance is a soft, ledger-recorded
/// failure: `Ok` effects with a failure status, no mutation, zero gas.
/// Otherwise the source loses `amount`, its version rises by one, and a
/// fresh destination object holding `amount` is minted for the recipient.
/// No gas is charged on any outcome: the native transfer is unmetered.
///
/// The intent must have passed the validity checker; the source version
/// must leave room for one increment; and the derived destination
/// identifier must be fresh, which collision-resistant identifier
/// derivation provides in deployment.
pub fn execute(intent: &TransferIntent, store: &mut ObjectStore) -> (r: Result<
    TransactionEffects,
    HardRejection,
>)
    requires
        old(store).wf(),
        spec_check(*intent) is Ok,
        intent.source.version < u64::MAX,
        !old(store).contents().contains_key(spec_created_id(*intent).value),
    ensures
        final(store).wf(),
        spec_execution_result(*intent, old(store).contents(), r, final(store).contents()),
{
    let source_id = intent.source.id;
    let cur = match store.get(source_id) {
        Some(c) => c,
        None => {
            return Err(HardRejection::ObjectVersionMismatch);
        },
    };
    if cur.version != intent.source.version || cur.digest != intent.source.digest {
        return Err(HardRejection::ObjectVersionMismatch);
    }
    if cur.owner != (Owner::Address { addr: intent.sender }) {
        return Err(HardRejection::IncorrectSigner);
    }
    if cur.balance < intent.amount {
        let mut builder = EffectsBuilder::new();
        builder.set_status(
            ExecutionStatus::Failure { error: ExecutionFailureStatus::InsufficientCoinBalance },
        );
        return Ok(builder.build());
    }
    let new_version = cur.version + 1;
    let new_balance = cur.balance - intent.amount;
    let new_digest = record_digest(source_id, new_version, &cur.owner, new_balance);
    let new_source = ObjectRecord {
        id: source_id,
        version: new_version,
        owner: cur.owner,
        digest: new_digest,
        balance: new_balance,
    };
    let replaced = store.replace_versioned(cur.version, new_source);
    assert(replaced);
    let tx_digest = intent_digest(intent);
    let created_id = derived_id(tx_digest, 0);
    let created_owner = Owner::Address { addr: intent.recipient };
    let created_digest = record_digest(created_id, 1, &created_owner, intent.amount);
    let created = ObjectRecord {
        id: created_id,
        version: 1,
        owner: created_owner,
        digest: created_digest,
        balance: intent.amount,
    };
    let inserted = store.insert_new(created);
    assert(inserted);
    let mut builder = EffectsBuilder::new();
    builder.push_mutated(source_id, new_version);
    builder.push_created(created_id, created_owner);
    let effects = builder.build();
    proof {
        assert(effects.mutated@ =~= seq![(MutatedRef { id: source_id, new_version })]);
        assert(effects.created@ =~= seq![(CreatedRef { id: created_id, owner: created_owner })]);
    }
    Ok(effects)
}

} // verus!
