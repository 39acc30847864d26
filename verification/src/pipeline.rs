//! The submission pipeline: a transaction enters the validity checker,
//! is classified onto a path, passes congestion admission, and — if it
//! gets that far — is executed and its effects packaged.  Hard
//! rejections come back synchronously and leave no ledger trace;
//! deferral is a delay, not a failure; a finalized attempt carries its
//! effects and the tag of the path that produced them.

use vstd::prelude::*;
use crate::effects::TransactionEffects;
use crate::executor::{execute, spec_admission, spec_created_id, spec_execution_result, HardRejection};
use crate::scheduler::{classify, spec_classified_source, spec_source_owners, AdmissionDecision, Scheduler, SchedulingSource, spec_estimate_cost};
use crate::store::ObjectStore;
use crate::types::{ObjectId, ObjectRecord, Owner, TransferIntent};
use crate::validity::{check, spec_check, InvalidTransaction};
use crate::config::ProtocolConfig;

verus! {

/// Why a submission was rejected outright.
#[derive(Clone, Copy, PartialEq, Eq, Structural, Debug)]
pub enum RejectionReason {
    /// The validity checker refused the intent; it was never scheduled.
    Invalid { error: InvalidTransaction },
    /// The executor refused it at admission; it was never finalized.
    Execution { error: HardRejection },
}

/// What the submitter gets back.
pub enum SubmissionOutcome {
    /// Hard rejection: final, not retried, no ledger trace.
    Rejected { error: RejectionReason },
    /// Backpressure: the transaction waits for a later execution slot.
    Deferred,
    /// Finalized, with the effects record and the path that produced it.
    /// The effects may still carry a soft failure status.
    Finalized { effects: TransactionEffects, source: SchedulingSource },
}

/// The pipeline's complete outcome as a function of intent, prior store,
/// prior scheduler and certificate availability: an invalid intent is
/// rejected before anything is touched; a transaction over the
/// congestion budget is deferred untouched; otherwise the admitted cost
/// is charged and the executor's outcome predicate decides the rest.
pub open spec fn spec_pipeline_result(
    intent: TransferIntent,
    s: Map<u64, ObjectRecord>,
    sched0: Scheduler,
    has_quorum_cert: bool,
    o: SubmissionOutcome,
    s2: Map<u64, ObjectRecord>,
    sched2: Scheduler,
) -> bool {
    if spec_check(intent) is Err {
        &&& o matches SubmissionOutcome::Rejected { error } && error == (RejectionReason::Invalid {
            error: spec_check(intent)->Err_0,
        })
        &&& s2 == s
        &&& sched2 == sched0
    } else if sched0.spec_should_defer(intent.source.id) {
        &&& o matches SubmissionOutcome::Deferred
        &&& s2 == s
        &&& sched2 == sched0
    } else {
        &&& sched2.spec_estimator() == sched0.spec_estimator()
        &&& sched2.accumulated_cost(intent.source.id) == sched0.accumulated_cost(intent.source.id)
            + spec_estimate_cost(sched0.spec_estimator(), intent.source.id)
        &&& forall|other: ObjectId|
            other.value != intent.source.id.value ==> sched2.accumulated_cost(other) == sched0
                .accumulated_cost(other)
        &&& match spec_admission(intent, s) {
            Some(h) => {
                &&& o matches SubmissionOutcome::Rejected { error } && error == (
                RejectionReason::Execution { error: h })
                &&& s2 == s
            },
            None => {
                &&& o matches SubmissionOutcome::Finalized { effects, source } && {
                    &&& spec_execution_result(
                        intent,
                        s,
                        Ok::<TransactionEffects, HardRejection>(effects),
                        s2,
                    )
                    &&& source == spec_classified_source(intent, s, has_quorum_cert)
                }
            },
        }
    }
}

/// Drive one submitted transfer through validation, classification,
/// congestion admission and execution.
///
/// The version bound and the freshness of the derived destination
/// identifier are owed by the caller for the same reason as on
/// [`execute`]; both are trivial for any store reachable in deployment.
pub fn process_transaction(
    intent: &TransferIntent,
    store: &mut ObjectStore,
    sched: &mut Scheduler,
    config: &ProtocolConfig,
    has_quorum_cert: bool,
) -> (o: SubmissionOutcome)
    requires
        old(store).wf(),
        old(sched).wf(),
        intent.source.version < u64::MAX,
        !old(store).contents().contains_key(spec_created_id(*intent).value),
    ensures
        final(store).wf(),
        final(sched).wf(),
        spec_pipeline_result(
            *intent,
            old(store).contents(),
            *old(sched),
            has_quorum_cert,
            o,
            final(store).contents(),
            *final(sched),
        ),
{
    if let Err(error) = check(intent, config) {
        return SubmissionOutcome::Rejected { error: RejectionReason::Invalid { error } };
    }
    match sched.admit_object(intent.source.id) {
        AdmissionDecision::Defer => {
            return SubmissionOutcome::Deferred;
        },
        AdmissionDecision::Proceed => {},
    }
    let owners: Vec<Owner> = match store.get(intent.source.id) {
        Some(rec) => vec![rec.owner],
        None => Vec::new(),
    };
    proof {
        assert(owners@ =~= spec_source_owners(*intent, store.contents()));
    }
    let source = classify(&owners, has_quorum_cert);
    match execute(intent, store) {
        Ok(effects) => SubmissionOutcome::Finalized { effects, source },
        Err(error) => SubmissionOutcome::Rejected {
            error: RejectionReason::Execution { error },
        },
    }
}

/// A zero-amount transfer is rejected at validation: it never reaches
/// the executor, and neither the store nor the scheduler is touched.
pub proof fn lemma_zero_amount_rejected(
    intent: TransferIntent,
    s: Map<u64, ObjectRecord>,
    sched0: Scheduler,
    has_quorum_cert: bool,
    o: SubmissionOutcome,
    s2: Map<u64, ObjectRecord>,
    sched2: Scheduler,
)
    requires
        spec_pipeline_result(intent, s, sched0, has_quorum_cert, o, s2, sched2),
        intent.amount == 0,
    ensures
        o matches SubmissionOutcome::Rejected { error } && error == (RejectionReason::Invalid {
            error: InvalidTransaction::ZeroAmount,
        }),
        s2 == s,
        sched2 == sched0,
{
}

/// A transfer whose source object is not owned by the sender is
/// rejected at admission: it is never finalized, never yields an
/// effects record, and the store is untouched.  Deferral only postpones
/// the same admission check, so no outcome of such a transfer is ever
/// `Finalized`.
pub proof fn lemma_wrong_owner_never_finalized(
    intent: TransferIntent,
    s: Map<u64, ObjectRecord>,
    sched0: Scheduler,
    has_quorum_cert: bool,
    o: SubmissionOutcome,
    s2: Map<u64, ObjectRecord>,
    sched2: Scheduler,
)
    requires
        spec_pipeline_result(intent, s, sched0, has_quorum_cert, o, s2, sched2),
        s.contains_key(intent.source.id.value),
        s[intent.source.id.value].owner != (Owner::Address { addr: intent.sender }),
    ensures
        !(o matches SubmissionOutcome::Finalized { .. }),
        s2 == s,
        spec_check(intent) is Ok && !sched0.spec_should_defer(intent.source.id) ==> (o matches
            SubmissionOutcome::Rejected { error } && error matches RejectionReason::Execution {
            .. }),
{
}

} // verus!
