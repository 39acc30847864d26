//! The executor's guarantees, stated once and proved from the outcome
//! predicate [`spec_execution_result`] alone: anything that satisfies the
//! executor's contract has these properties, whatever its body does.

use vstd::prelude::*;
use crate::effects::{effects_equal, ExecutionFailureStatus, ExecutionStatus, TransactionEffects};
use crate::executor::{spec_admission, spec_created_id, spec_execution_result, spec_new_source, HardRejection};
use crate::types::{ObjectRecord, Owner, TransferIntent};

verus! {

/// A valid transfer with `amount` within the source balance succeeds: the
/// source balance drops by exactly `amount`, exactly one new object is
/// created, holding `amount` and owned by the recipient, and no gas is
/// charged.
pub proof fn lemma_transfer_success(
    intent: TransferIntent,
    s: Map<u64, ObjectRecord>,
    r: Result<TransactionEffects, HardRejection>,
    s2: Map<u64, ObjectRecord>,
)
    requires
        spec_execution_result(intent, s, r, s2),
        spec_admission(intent, s) is None,
        intent.amount <= s[intent.source.id.value].balance,
        !s.contains_key(spec_created_id(intent).value),
    ensures
        r matches Ok(e) && e.status == ExecutionStatus::Success,
        r matches Ok(e) && e.created@.len() == 1 && e.created@[0].id == spec_created_id(intent)
            && e.created@[0].owner == (Owner::Address { addr: intent.recipient }),
        r matches Ok(e) && e.gas.spec_net_gas_usage() == 0,
        s2.contains_key(intent.source.id.value),
        s2[intent.source.id.value].balance == s[intent.source.id.value].balance - intent.amount,
        s2.contains_key(spec_created_id(intent).value),
        s2[spec_created_id(intent).value].balance == intent.amount,
        s2[spec_created_id(intent).value].owner == (Owner::Address { addr: intent.recipient }),
{
}

/// A transfer of more than the source balance is a soft, ledger-recorded
/// failure: the effects carry the insufficient-balance status, mutate and
/// create nothing, charge no gas, and the store is untouched.
pub proof fn lemma_insufficient_balance(
    intent: TransferIntent,
    s: Map<u64, ObjectRecord>,
    r: Result<TransactionEffects, HardRejection>,
    s2: Map<u64, ObjectRecord>,
)
    requires
        spec_execution_result(intent, s, r, s2),
        spec_admission(intent, s) is None,
        intent.amount > s[intent.source.id.value].balance,
    ensures
        r matches Ok(e) && e.status == (ExecutionStatus::Failure {
            error: ExecutionFailureStatus::InsufficientCoinBalance,
        }),
        r matches Ok(e) && e.mutated@.len() == 0 && e.created@.len() == 0 && e.deleted@.len() == 0,
        r matches Ok(e) && e.gas.spec_net_gas_usage() == 0,
        s2 == s,
{
}

/// A transfer whose source is not owned by the sender is rejected at
/// admission: no effects record exists and the store is untouched.
pub proof fn lemma_wrong_owner_rejected(
    intent: TransferIntent,
    s: Map<u64, ObjectRecord>,
    r: Result<TransactionEffects, HardRejection>,
    s2: Map<u64, ObjectRecord>,
)
    requires
        spec_execution_result(intent, s, r, s2),
        s.contains_key(intent.source.id.value),
        s[intent.source.id.value].owner != (Owner::Address { addr: intent.sender }),
    ensures
        r is Err,
        s2 == s,
{
}

/// A full-balance transfer drains the source but keeps it: the record is
/// still present at balance zero, its version exactly one higher.
pub proof fn lemma_full_balance_transfer(
    intent: TransferIntent,
    s: Map<u64, ObjectRecord>,
    r: Result<TransactionEffects, HardRejection>,
    s2: Map<u64, ObjectRecord>,
)
    requires
        spec_execution_result(intent, s, r, s2),
        spec_admission(intent, s) is None,
        intent.amount == s[intent.source.id.value].balance,
        !s.contains_key(spec_created_id(intent).value),
        s[intent.source.id.value].version < u64::MAX,
    ensures
        r matches Ok(e) && e.status == ExecutionStatus::Success,
        s2.contains_key(intent.source.id.value),
        s2[intent.source.id.value].balance == 0,
        s2[intent.source.id.value].version == s[intent.source.id.value].version + 1,
{
}

/// Execution is a function of intent and prior state: two outcomes of the
/// same intent against the same store agree on the verdict, on every
/// field of the effects record, and on the posterior store.
pub proof fn lemma_deterministic_execution(
    intent: TransferIntent,
    s: Map<u64, ObjectRecord>,
    r1: Result<TransactionEffects, HardRejection>,
    s1: Map<u64, ObjectRecord>,
    r2: Result<TransactionEffects, HardRejection>,
    s2: Map<u64, ObjectRecord>,
)
    requires
        spec_execution_result(intent, s, r1, s1),
        spec_execution_result(intent, s, r2, s2),
    ensures
        r1 is Ok <==> r2 is Ok,
        r1 matches Err(h1) ==> r2 == Err::<TransactionEffects, HardRejection>(h1),
        r1 matches Ok(e1) ==> r2 matches Ok(e2) ==> effects_equal(e1, e2),
        s1 == s2,
{
}

/// A transfer touches nothing beyond its own source and destination:
/// every other object is exactly as it was, present or absent.
/// Transactions that share no object can therefore execute in parallel
/// without interference.
pub proof fn lemma_execution_frame(
    intent: TransferIntent,
    s: Map<u64, ObjectRecord>,
    r: Result<TransactionEffects, HardRejection>,
    s2: Map<u64, ObjectRecord>,
    other: u64,
)
    requires
        spec_execution_result(intent, s, r, s2),
        other != intent.source.id.value,
        other != spec_created_id(intent).value,
    ensures
        s2.contains_key(other) == s.contains_key(other),
        s.contains_key(other) ==> s2[other] == s[other],
{
}

/// Funded transfers that share no object commute: applied in either
/// order they leave the store in the same state, and each produces the
/// same effects in both orders.  This is what lets the scheduler run
/// transactions on disjoint objects fully in parallel.
pub proof fn lemma_disjoint_transfers_commute(
    intent_a: TransferIntent,
    intent_b: TransferIntent,
    s: Map<u64, ObjectRecord>,
    r_a_first: Result<TransactionEffects, HardRejection>,
    s_a: Map<u64, ObjectRecord>,
    r_b_second: Result<TransactionEffects, HardRejection>,
    s_ab: Map<u64, ObjectRecord>,
    r_b_first: Result<TransactionEffects, HardRejection>,
    s_b: Map<u64, ObjectRecord>,
    r_a_second: Result<TransactionEffects, HardRejection>,
    s_ba: Map<u64, ObjectRecord>,
)
    requires
        spec_execution_result(intent_a, s, r_a_first, s_a),
        spec_execution_result(intent_b, s_a, r_b_second, s_ab),
        spec_execution_result(intent_b, s, r_b_first, s_b),
        spec_execution_result(intent_a, s_b, r_a_second, s_ba),
        spec_admission(intent_a, s) is None,
        s[intent_a.source.id.value].id == intent_a.source.id,
        intent_a.amount <= s[intent_a.source.id.value].balance,
        !s.contains_key(spec_created_id(intent_a).value),
        spec_admission(intent_b, s) is None,
        s[intent_b.source.id.value].id == intent_b.source.id,
        intent_b.amount <= s[intent_b.source.id.value].balance,
        !s.contains_key(spec_created_id(intent_b).value),
        intent_a.source.id.value != intent_b.source.id.value,
        spec_created_id(intent_a).value != spec_created_id(intent_b).value,
    ensures
        s_ab == s_ba,
        r_a_first is Ok && r_b_first is Ok,
        r_a_first matches Ok(e1) ==> r_a_second matches Ok(e2) ==> effects_equal(e1, e2),
        r_b_first matches Ok(e1) ==> r_b_second matches Ok(e2) ==> effects_equal(e1, e2),
{
    let ka = intent_a.source.id.value;
    let kb = intent_b.source.id.value;
    assert(spec_created_id(intent_a).value != kb);
    assert(spec_created_id(intent_b).value != ka);
    assert(s_a == crate::executor::spec_post_store(intent_a, s));
    assert(s_a[kb] == s[kb]);
    assert(spec_admission(intent_b, s_a) is None);
    assert(spec_new_source(intent_b, s_a) == spec_new_source(intent_b, s));
    assert(s_ab == crate::executor::spec_post_store(intent_b, s_a));
    assert(s_b == crate::executor::spec_post_store(intent_b, s));
    assert(s_b[ka] == s[ka]);
    assert(spec_admission(intent_a, s_b) is None);
    assert(spec_new_source(intent_a, s_b) == spec_new_source(intent_a, s));
    assert(s_ba == crate::executor::spec_post_store(intent_a, s_b));
    assert(s_ab =~= s_ba);
}

/// Each object version can be spent at most once: after a successful
/// transfer, a second attempt quoting the very same source reference
/// meets a version mismatch and changes nothing.  This is the
/// optimistic-concurrency check that serialises writers of an owned
/// object in version order without any lock.
pub proof fn lemma_version_consumed(
    intent1: TransferIntent,
    s: Map<u64, ObjectRecord>,
    r1: Result<TransactionEffects, HardRejection>,
    s1: Map<u64, ObjectRecord>,
    intent2: TransferIntent,
    r2: Result<TransactionEffects, HardRejection>,
    s2: Map<u64, ObjectRecord>,
)
    requires
        spec_execution_result(intent1, s, r1, s1),
        spec_execution_result(intent2, s1, r2, s2),
        spec_admission(intent1, s) is None,
        s[intent1.source.id.value].id == intent1.source.id,
        s[intent1.source.id.value].version < u64::MAX,
        intent1.amount <= s[intent1.source.id.value].balance,
        !s.contains_key(spec_created_id(intent1).value),
        intent2.source == intent1.source,
    ensures
        r2 == Err::<TransactionEffects, HardRejection>(HardRejection::ObjectVersionMismatch),
        s2 == s1,
{
    let k = intent1.source.id.value;
    let v = s[k].version;
    assert(s1[k] == spec_new_source(intent1, s));
    assert(s1[k].version == v + 1);
    assert(s1[k].version != v);
}

/// Sequential transfers from the same source compose: after a first
/// transfer of `amount₁` and a second of `amount₂` quoting the updated
/// reference, the source balance has dropped by their sum and each
/// transfer's freshly created destination object is present, holding its
/// own amount.
pub proof fn lemma_sequential_transfers(
    intent1: TransferIntent,
    s0: Map<u64, ObjectRecord>,
    r1: Result<TransactionEffects, HardRejection>,
    s1: Map<u64, ObjectRecord>,
    intent2: TransferIntent,
    r2: Result<TransactionEffects, HardRejection>,
    s2: Map<u64, ObjectRecord>,
)
    requires
        spec_execution_result(intent1, s0, r1, s1),
        spec_execution_result(intent2, s1, r2, s2),
        spec_admission(intent1, s0) is None,
        s0[intent1.source.id.value].id == intent1.source.id,
        intent1.amount <= s0[intent1.source.id.value].balance,
        !s0.contains_key(spec_created_id(intent1).value),
        intent2.source == spec_new_source(intent1, s0).spec_object_ref(),
        intent2.sender == intent1.sender,
        intent2.amount <= s0[intent1.source.id.value].balance - intent1.amount,
        !s1.contains_key(spec_created_id(intent2).value),
    ensures
        r1 matches Ok(e1) && e1.status == ExecutionStatus::Success,
        r2 matches Ok(e2) && e2.status == ExecutionStatus::Success,
        s2.contains_key(intent1.source.id.value),
        s2[intent1.source.id.value].balance == s0[intent1.source.id.value].balance
            - intent1.amount - intent2.amount,
        s2.contains_key(spec_created_id(intent1).value),
        s2[spec_created_id(intent1).value].balance == intent1.amount,
        s2[spec_created_id(intent1).value].owner == (Owner::Address { addr: intent1.recipient }),
        s2.contains_key(spec_created_id(intent2).value),
        s2[spec_created_id(intent2).value].balance == intent2.amount,
        s2[spec_created_id(intent2).value].owner == (Owner::Address { addr: intent2.recipient }),
{
    let k = intent1.source.id.value;
    let c1 = spec_created_id(intent1).value;
    let c2 = spec_created_id(intent2).value;
    assert(c1 != k);
    assert(s1 == crate::executor::spec_post_store(intent1, s0));
    assert(s1[k] == spec_new_source(intent1, s0));
    assert(spec_admission(intent2, s1) is None);
    assert(c2 != c1);
    assert(c2 != k);
    assert(s2 == crate::executor::spec_post_store(intent2, s1));
}

} // verus!
