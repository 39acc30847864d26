//! Execution scheduler: decides, per transaction, whether it can run on
//! the fast path — bypassing full consensus ordering, valid only when
//! every referenced object is exclusively address-owned and a
//! quorum-endorsed certificate is supplied — or must queue through the
//! ordered path; consults the congestion estimator before admitting a
//! transaction for execution on either path, deferring (backpressure,
//! not failure) when an object's per-checkpoint cost budget is spent.

use vstd::prelude::*;
use std::collections::HashMap;
use crate::congestion::{spec_capped, spec_median, CongestionEstimator};
use crate::effects::{effects_equal, TransactionEffects};
use crate::executor::{execute, spec_created_id, spec_execution_result, HardRejection};
use crate::laws::lemma_deterministic_execution;
use crate::store::ObjectStore;
use crate::types::{ObjectId, ObjectRecord, Owner, TransferIntent};
use crate::validity::spec_check;

verus! {

broadcast use vstd::std_specs::hash::group_hash_axioms;

/// Which path produced an execution attempt.  Observability only: the
/// tag never influences what the executor computes.
#[derive(Clone, Copy, PartialEq, Eq, Structural, Debug)]
pub enum SchedulingSource {
    /// Finalized through a quorum certificate without full ordering.
    FastPath,
    /// Ordered by the external consensus layer before execution.
    OrderedPath,
    /// Driven directly by a local harness.
    LocalTesting,
}

/// Lifecycle of a submitted transaction.
#[derive(Clone, Copy, PartialEq, Eq, Structural, Debug)]
pub enum TxPhase {
    Submitted,
    Classified { source: SchedulingSource },
    Executing,
    Finalized,
    Rejected,
}

/// The transitions the lifecycle permits: a submission is classified or
/// rejected outright; a classified transaction proceeds to execution;
/// execution ends finalized or rejected.  Both end states are final.
pub open spec fn spec_phase_allows(a: TxPhase, b: TxPhase) -> bool {
    match (a, b) {
        (TxPhase::Submitted, TxPhase::Classified { .. }) => true,
        (TxPhase::Submitted, TxPhase::Rejected) => true,
        (TxPhase::Classified { .. }, TxPhase::Executing) => true,
        (TxPhase::Executing, TxPhase::Finalized) => true,
        (TxPhase::Executing, TxPhase::Rejected) => true,
        _ => false,
    }
}

/// Runtime counterpart of [`spec_phase_allows`].
pub fn phase_may_advance(a: TxPhase, b: TxPhase) -> (ok: bool)
    ensures
        ok == spec_phase_allows(a, b),
{
    match (a, b) {
        (TxPhase::Submitted, TxPhase::Classified { .. }) => true,
        (TxPhase::Submitted, TxPhase::Rejected) => true,
        (TxPhase::Classified { .. }, TxPhase::Executing) => true,
        (TxPhase::Executing, TxPhase::Finalized) => true,
        (TxPhase::Executing, TxPhase::Rejected) => true,
        _ => false,
    }
}

/// Fast-path eligibility: a quorum certificate is in hand and every
/// referenced object is exclusively address-owned.
pub open spec fn spec_fast_path_eligible(owners: Seq<Owner>, has_quorum_cert: bool) -> bool {
    &&& has_quorum_cert
    &&& forall|i: int| 0 <= i < owners.len() ==> owners[i] is Address
}

/// Classify a transaction by the owners of the objects it references:
/// the fast path exactly when eligible, the ordered path otherwise.
pub fn classify(owners: &Vec<Owner>, has_quorum_cert: bool) -> (s: SchedulingSource)
    ensures
        s == if spec_fast_path_eligible(owners@, has_quorum_cert) {
            SchedulingSource::FastPath
        } else {
            SchedulingSource::OrderedPath
        },
{
    if !has_quorum_cert {
        return SchedulingSource::OrderedPath;
    }
    let mut i: usize = 0;
    while i < owners.len()
        invariant
            0 <= i <= owners@.len(),
            forall|j: int| 0 <= j < i ==> owners@[j] is Address,
        decreases owners@.len() - i,
    {
        match owners[i] {
            Owner::Address { .. } => {},
            _ => {
                return SchedulingSource::OrderedPath;
            },
        }
        i = i + 1;
    }
    SchedulingSource::FastPath
}

/// Whether to admit a transaction for execution now or defer it.
#[derive(Clone, Copy, PartialEq, Eq, Structural, Debug)]
pub enum AdmissionDecision {
    Proceed,
    Defer,
}

/// The estimator's advisory cost for an object, as the scheduler reads
/// it: no history counts as zero cost, history as the capped
/// stake-weighted median.
pub open spec fn spec_estimate_cost(est: CongestionEstimator, id: ObjectId) -> u64 {
    if est.window_of(id).len() == 0 {
        0
    } else {
        spec_capped(
            spec_median(est.window_of(id), est.spec_params().stake_weighted_median_threshold),
            est.spec_params().max_estimate_us,
        )
    }
}

/// An entry of the deferred queue: a transaction waiting for a later
/// execution slot on a contended object.
#[derive(Clone, Copy, PartialEq, Eq, Structural, Debug)]
pub struct DeferredTx {
    /// The stake-weighted median cost estimate the transaction carries.
    pub estimate_us: u64,
    /// Digest of the transaction, the deterministic tie-breaker.
    pub tx_digest: u64,
}

/// Strict admission order among deferred transactions: median cost
/// ascending, ties broken by transaction digest, so any validator
/// recomputing the same inputs reproduces the same order.
pub open spec fn spec_admits_before(a: DeferredTx, b: DeferredTx) -> bool {
    ||| a.estimate_us < b.estimate_us
    ||| (a.estimate_us == b.estimate_us && a.tx_digest < b.tx_digest)
}

/// Pick the next deferred transaction to admit: the entry least in the
/// admission order, at its first position if duplicated.
pub fn next_deferred(queue: &Vec<DeferredTx>) -> (r: Option<usize>)
    ensures
        r is None <==> queue@.len() == 0,
        r matches Some(i) ==> {
            &&& i < queue@.len()
            &&& forall|j: int| 0 <= j < queue@.len() ==> !spec_admits_before(queue@[j], queue@[i as int])
            &&& forall|j: int| 0 <= j < i ==> queue@[j] != queue@[i as int]
        },
{
    if queue.len() == 0 {
        return None;
    }
    let mut best: usize = 0;
    let mut i: usize = 1;
    while i < queue.len()
        invariant
            0 <= best < i <= queue@.len(),
            forall|j: int| 0 <= j < i ==> !spec_admits_before(queue@[j], queue@[best as int]),
            forall|j: int| 0 <= j < best ==> queue@[j] != queue@[best as int],
        decreases queue@.len() - i,
    {
        let cand = queue[i];
        let cur = queue[best];
        if cand.estimate_us < cur.estimate_us || (cand.estimate_us == cur.estimate_us
            && cand.tx_digest < cur.tx_digest) {
            best = i;
        }
        i = i + 1;
    }
    Some(best)
}

/// The scheduler: the congestion estimator plus, per object, the
/// estimated cost already admitted in the current checkpoint interval.
pub struct Scheduler {
    estimator: CongestionEstimator,
    admitted_cost: HashMap<u64, u64>,
}

impl Scheduler {
    /// The congestion estimator the scheduler consults.
    pub closed spec fn spec_estimator(self) -> CongestionEstimator {
        self.estimator
    }

    /// Estimated cost already admitted on an object this checkpoint.
    pub closed spec fn accumulated_cost(self, id: ObjectId) -> u64 {
        if self.admitted_cost@.contains_key(id.value) {
            self.admitted_cost@[id.value]
        } else {
            0
        }
    }

    /// The per-checkpoint, per-object cost budget in force.
    pub open spec fn spec_budget(self) -> u64 {
        self.spec_estimator().spec_params().allowed_txn_cost_overage_burst_limit_us
    }

    /// Well-formed: the estimator is, and no object's admitted cost has
    /// passed the budget.
    pub open spec fn wf(self) -> bool {
        &&& self.spec_estimator().wf()
        &&& forall|id: ObjectId| #[trigger] self.accumulated_cost(id) <= self.spec_budget()
    }

    /// A scheduler over a fresh estimator, with nothing admitted yet.
    pub fn new(estimator: CongestionEstimator) -> (s: Scheduler)
        requires
            estimator.wf(),
        ensures
            s.wf(),
            s.spec_estimator() == estimator,
            forall|id: ObjectId| #[trigger] s.accumulated_cost(id) == 0,
    {
        Scheduler { estimator, admitted_cost: HashMap::new() }
    }

    /// Record one execution-time sample with the estimator.
    pub fn record_sample(&mut self, id: ObjectId, cost_us: u64, stake: u64)
        requires
            old(self).wf(),
            stake <= crate::config::STAKE_BASIS,
        ensures
            final(self).wf(),
            final(self).spec_estimator().spec_params() == old(self).spec_estimator().spec_params(),
            final(self).spec_estimator().window_of(id) == crate::congestion::spec_pushed_window(
                old(self).spec_estimator().window_of(id),
                crate::congestion::Observation { cost_us, stake },
                old(self).spec_estimator().spec_params().stored_observations_limit,
            ),
            forall|other: ObjectId|
                other.value != id.value ==> #[trigger] final(self).spec_estimator().window_of(other)
                    == old(self).spec_estimator().window_of(other),
            forall|other: ObjectId| #[trigger]
                final(self).accumulated_cost(other) == old(self).accumulated_cost(other),
    {
        self.estimator.record_sample(id, cost_us, stake);
        proof {
            assert forall|oid: ObjectId| #[trigger]
                self.accumulated_cost(oid) <= self.spec_budget() by {
                assert(self.accumulated_cost(oid) == old(self).accumulated_cost(oid));
                assert(old(self).accumulated_cost(oid) <= old(self).spec_budget());
            }
        }
    }

    /// Open a new checkpoint interval: admitted costs start over, the
    /// estimator and its history stay (estimates are refreshed per
    /// interval, never retroactively altered).
    pub fn begin_checkpoint(&mut self)
        requires
            old(self).wf(),
        ensures
            final(self).wf(),
            final(self).spec_estimator() == old(self).spec_estimator(),
            forall|id: ObjectId| #[trigger] final(self).accumulated_cost(id) == 0,
    {
        self.admitted_cost.clear();
    }

    /// Whether admitting one more transaction on this object would push
    /// its accumulated estimated cost past the budget.
    pub open spec fn spec_should_defer(self, id: ObjectId) -> bool {
        self.accumulated_cost(id) + spec_estimate_cost(self.spec_estimator(), id)
            > self.spec_budget()
    }

    /// Ask to run one transaction against this object now.  Within
    /// budget the cost is charged and the transaction proceeds; past it
    /// the transaction is deferred — backpressure, not failure — and the
    /// scheduler is left exactly as it was.
    pub fn admit_object(&mut self, id: ObjectId) -> (d: AdmissionDecision)
        requires
            old(self).wf(),
        ensures
            final(self).wf(),
            old(self).spec_should_defer(id) ==> d == AdmissionDecision::Defer && *final(self)
                == *old(self),
            !old(self).spec_should_defer(id) ==> {
                &&& d == AdmissionDecision::Proceed
                &&& final(self).spec_estimator() == old(self).spec_estimator()
                &&& final(self).accumulated_cost(id) == old(self).accumulated_cost(id)
                    + spec_estimate_cost(old(self).spec_estimator(), id)
                &&& forall|other: ObjectId|
                    other.value != id.value ==> #[trigger] final(self).accumulated_cost(other)
                        == old(self).accumulated_cost(other)
            },
    {
        let cost = match self.estimator.estimate(id) {
            Some(c) => c,
            None => 0,
        };
        let acc = match self.admitted_cost.get(&id.value) {
            Some(a) => *a,
            None => 0,
        };
        assert(acc == self.accumulated_cost(id));
        assert(old(self).accumulated_cost(id) <= old(self).spec_budget());
        if cost > self.estimator_budget() - acc {
            AdmissionDecision::Defer
        } else {
            self.admitted_cost.insert(id.value, acc + cost);
            proof {
                assert forall|oid: ObjectId| #[trigger]
                    self.accumulated_cost(oid) <= self.spec_budget() by {
                    if oid.value != id.value {
                        assert(self.accumulated_cost(oid) == old(self).accumulated_cost(oid));
                    }
                }
            }
            AdmissionDecision::Proceed
        }
    }

    /// The budget, read off the estimator's configuration.
    fn estimator_budget(&self) -> (b: u64)
        ensures
            b == self.spec_budget(),
    {
        self.estimator.params().allowed_txn_cost_overage_burst_limit_us
    }
}

/// The owners of the objects a transfer references, as far as the store
/// resolves them: the source object's owner, or nothing if it is absent.
pub open spec fn spec_source_owners(intent: TransferIntent, s: Map<u64, ObjectRecord>) -> Seq<
    Owner,
> {
    if s.contains_key(intent.source.id.value) {
        seq![s[intent.source.id.value].owner]
    } else {
        Seq::<Owner>::empty()
    }
}

/// The path a transfer is classified onto against a given store.
pub open spec fn spec_classified_source(
    intent: TransferIntent,
    s: Map<u64, ObjectRecord>,
    has_quorum_cert: bool,
) -> SchedulingSource {
    if spec_fast_path_eligible(spec_source_owners(intent, s), has_quorum_cert) {
        SchedulingSource::FastPath
    } else {
        SchedulingSource::OrderedPath
    }
}

/// One execution attempt: the effects it produced and the path that
/// produced it.  The tag exists for observability and invariants only.
pub struct ExecutionAttempt {
    pub effects: TransactionEffects,
    pub source: SchedulingSource,
}

/// Outcome predicate of [`execute_on_path`]: the attempt carries the
/// given tag, and effects and posterior store are exactly those of the
/// executor's outcome predicate — which does not mention the tag.
pub open spec fn spec_attempt_result(
    intent: TransferIntent,
    s: Map<u64, ObjectRecord>,
    r: Result<ExecutionAttempt, HardRejection>,
    s2: Map<u64, ObjectRecord>,
    source: SchedulingSource,
) -> bool {
    match r {
        Ok(a) => a.source == source && spec_execution_result(
            intent,
            s,
            Ok::<TransactionEffects, HardRejection>(a.effects),
            s2,
        ),
        Err(h) => spec_execution_result(
            intent,
            s,
            Err::<TransactionEffects, HardRejection>(h),
            s2,
        ),
    }
}

/// Run one validated transfer on the given path and tag the attempt
/// with it.  The path never reaches the executor's computation.
pub fn execute_on_path(
    intent: &TransferIntent,
    store: &mut ObjectStore,
    source: SchedulingSource,
) -> (r: Result<ExecutionAttempt, HardRejection>)
    requires
        old(store).wf(),
        spec_check(*intent) is Ok,
        intent.source.version < u64::MAX,
        !old(store).contents().contains_key(spec_created_id(*intent).value),
    ensures
        final(store).wf(),
        spec_attempt_result(*intent, old(store).contents(), r, final(store).contents(), source),
{
    match execute(intent, store) {
        Ok(effects) => Ok(ExecutionAttempt { effects, source }),
        Err(h) => Err(h),
    }
}

/// Fast-path and ordered-path execution of an otherwise-identical
/// transaction produce identical effects — status, mutations, created
/// objects, gas — and the same posterior store; only the scheduling tag
/// tells the attempts apart.
pub proof fn lemma_path_independence(
    intent: TransferIntent,
    s: Map<u64, ObjectRecord>,
    r1: Result<ExecutionAttempt, HardRejection>,
    s1: Map<u64, ObjectRecord>,
    r2: Result<ExecutionAttempt, HardRejection>,
    s2: Map<u64, ObjectRecord>,
)
    requires
        spec_attempt_result(intent, s, r1, s1, SchedulingSource::FastPath),
        spec_attempt_result(intent, s, r2, s2, SchedulingSource::OrderedPath),
    ensures
        r1 is Ok <==> r2 is Ok,
        r1 matches Ok(a1) ==> r2 matches Ok(a2) ==> effects_equal(a1.effects, a2.effects)
            && a1.source != a2.source,
        r1 matches Err(h1) ==> r2 == Err::<ExecutionAttempt, HardRejection>(h1),
        s1 == s2,
{
    match (r1, r2) {
        (Ok(a1), Ok(a2)) => {
            lemma_deterministic_execution(
                intent,
                s,
                Ok::<TransactionEffects, HardRejection>(a1.effects),
                s1,
                Ok::<TransactionEffects, HardRejection>(a2.effects),
                s2,
            );
        },
        (Err(h1), Err(h2)) => {
            lemma_deterministic_execution(
                intent,
                s,
                Err::<TransactionEffects, HardRejection>(h1),
                s1,
                Err::<TransactionEffects, HardRejection>(h2),
                s2,
            );
        },
        (Ok(a1), Err(h2)) => {
            lemma_deterministic_execution(
                intent,
                s,
                Ok::<TransactionEffects, HardRejection>(a1.effects),
                s1,
                Err::<TransactionEffects, HardRejection>(h2),
                s2,
            );
        },
        (Err(h1), Ok(a2)) => {
            lemma_deterministic_execution(
                intent,
                s,
                Err::<TransactionEffects, HardRejection>(h1),
                s1,
                Ok::<TransactionEffects, HardRejection>(a2.effects),
                s2,
            );
        },
    }
}

} // verus!
