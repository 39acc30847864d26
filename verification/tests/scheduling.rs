use ledger_core::config::{CongestionParams, ProtocolConfig, STAKE_BASIS};
use ledger_core::congestion::CongestionEstimator;
use ledger_core::digest::record_digest;
use ledger_core::effects::{EffectsBuilder, ExecutionStatus, GasSummary};
use ledger_core::executor::execute;
use ledger_core::scheduler::{
    classify, next_deferred, phase_may_advance, AdmissionDecision, DeferredTx, Scheduler,
    SchedulingSource, TxPhase,
};
use ledger_core::store::ObjectStore;
use ledger_core::types::{Address, ObjectId, ObjectRecord, ObjectRef, Owner, TransferIntent};
use ledger_core::validity::{check, InvalidTransaction};

fn params(limit: usize, threshold: u64, budget: u64, max_estimate: u64) -> CongestionParams {
    CongestionParams {
        target_utilization: 50,
        allowed_txn_cost_overage_burst_limit_us: budget,
        randomness_scalar: 20,
        max_estimate_us: max_estimate,
        stored_observations_num_included_checkpoints: 10,
        stored_observations_limit: limit,
        stake_weighted_median_threshold: threshold,
        default_none_duration_for_new_keys: true,
        observations_chunk_size: Some(18),
    }
}

fn coin(id: u64, owner: Address, balance: u64) -> ObjectRecord {
    let coin_id = ObjectId { value: id };
    let ownership = Owner::Address { addr: owner };
    let digest = record_digest(coin_id, 1, &ownership, balance);
    ObjectRecord {
        id: coin_id,
        version: 1,
        owner: ownership,
        digest,
        balance,
    }
}

#[test]
fn classify_requires_quorum_certificate() {
    let owners = vec![Owner::Address {
        addr: Address { value: 5 },
    }];
    assert_eq!(classify(&owners, false), SchedulingSource::OrderedPath);
    assert_eq!(classify(&owners, true), SchedulingSource::FastPath);
}

#[test]
fn classify_rejects_shared_objects() {
    let owners = vec![
        Owner::Address {
            addr: Address { value: 5 },
        },
        Owner::Shared,
    ];
    assert_eq!(classify(&owners, true), SchedulingSource::OrderedPath);
    let owners = vec![Owner::Immutable];
    assert_eq!(classify(&owners, true), SchedulingSource::OrderedPath);
}

#[test]
fn fast_and_ordered_paths_agree_on_effects() {
    // Two validators hold the same prior state; one finalizes through
    // the fast path, the other through the ordered path.
    let sender = Address { value: 11 };
    let recipient = Address { value: 22 };
    let intent_of = |source: ObjectRef| TransferIntent {
        sender,
        source,
        recipient,
        amount: 400,
    };

    let object1 = coin(3, sender, 1000);
    let mut store1 = ObjectStore::new();
    assert!(store1.insert_new(object1));
    let outcome1 =
        ledger_core::scheduler::execute_on_path(
            &intent_of(object1.object_ref()),
            &mut store1,
            SchedulingSource::FastPath,
        )
        .unwrap();

    let object2 = coin(3, sender, 1000);
    let mut store2 = ObjectStore::new();
    assert!(store2.insert_new(object2));
    let outcome2 =
        ledger_core::scheduler::execute_on_path(
            &intent_of(object2.object_ref()),
            &mut store2,
            SchedulingSource::OrderedPath,
        )
        .unwrap();

    // Identical effects, down to versions and created-object identity...
    assert_eq!(outcome1.effects.status, outcome2.effects.status);
    assert_eq!(outcome1.effects.mutated, outcome2.effects.mutated);
    assert_eq!(outcome1.effects.created, outcome2.effects.created);
    assert_eq!(outcome1.effects.deleted, outcome2.effects.deleted);
    assert_eq!(outcome1.effects.gas, outcome2.effects.gas);
    // ...and only the scheduling tag differs.
    assert_ne!(outcome1.source, outcome2.source);
}

#[test]
fn estimator_reports_no_estimate_for_new_keys() {
    let est = CongestionEstimator::new(params(180, 3334, 500_000, 1_500_000));
    assert_eq!(est.estimate(ObjectId { value: 9 }), None);

    let mut p = params(180, 3334, 500_000, 1_500_000);
    p.default_none_duration_for_new_keys = false;
    let est = CongestionEstimator::new(p);
    assert_eq!(est.estimate(ObjectId { value: 9 }), Some(0));
}

#[test]
fn estimator_takes_stake_weighted_median() {
    let mut est = CongestionEstimator::new(params(180, 3334, 500_000, 1_500_000));
    let id = ObjectId { value: 9 };
    // Half the stake saw cost 100, half saw cost 200.  A third of the
    // stake lies at or below 100, so 100 already qualifies.
    est.record_sample(id, 100, 5000);
    est.record_sample(id, 200, 5000);
    assert_eq!(est.estimate(id), Some(100));

    // Under a majority threshold, 100 no longer gathers enough stake.
    let mut est = CongestionEstimator::new(params(180, 6000, 500_000, 1_500_000));
    est.record_sample(id, 100, 5000);
    est.record_sample(id, 200, 5000);
    assert_eq!(est.estimate(id), Some(200));
}

#[test]
fn estimator_caps_at_max_estimate() {
    let mut est = CongestionEstimator::new(params(180, 3334, 500_000, 150));
    let id = ObjectId { value: 9 };
    est.record_sample(id, 10_000, STAKE_BASIS);
    assert_eq!(est.estimate(id), Some(150));
}

#[test]
fn estimator_evicts_oldest_past_window_bound() {
    let mut est = CongestionEstimator::new(params(2, STAKE_BASIS, 500_000, 1_500_000));
    let id = ObjectId { value: 9 };
    // With the whole stake behind each sample and a full-stake
    // threshold, the median is the largest surviving cost.
    est.record_sample(id, 900, STAKE_BASIS);
    est.record_sample(id, 50, STAKE_BASIS);
    est.record_sample(id, 70, STAKE_BASIS);
    // The window holds two samples, so 900 has been evicted.
    assert_eq!(est.estimate(id), Some(70));
}

#[test]
fn scheduler_defers_past_budget_and_resets_per_checkpoint() {
    let mut est = CongestionEstimator::new(params(180, STAKE_BASIS, 1000, 1_500_000));
    let id = ObjectId { value: 9 };
    est.record_sample(id, 600, STAKE_BASIS);
    let mut sched = Scheduler::new(est);

    // First admission charges 600 of the 1000 budget; a second 600
    // would overrun it, so the transaction is deferred, not rejected.
    assert_eq!(sched.admit_object(id), AdmissionDecision::Proceed);
    assert_eq!(sched.admit_object(id), AdmissionDecision::Defer);

    // Another object has its own budget.
    assert_eq!(
        sched.admit_object(ObjectId { value: 10 }),
        AdmissionDecision::Proceed
    );

    // A new checkpoint interval starts the accounting over.
    sched.begin_checkpoint();
    assert_eq!(sched.admit_object(id), AdmissionDecision::Proceed);
}

#[test]
fn deferred_admission_order_is_deterministic() {
    let queue = vec![
        DeferredTx {
            estimate_us: 300,
            tx_digest: 1,
        },
        DeferredTx {
            estimate_us: 100,
            tx_digest: 9,
        },
        DeferredTx {
            estimate_us: 100,
            tx_digest: 4,
        },
    ];
    // Lowest median cost first; the digest breaks the tie.
    assert_eq!(next_deferred(&queue), Some(2));
    assert_eq!(next_deferred(&Vec::new()), None);

    // Exact duplicates admit at their first position.
    let twice = vec![
        DeferredTx {
            estimate_us: 5,
            tx_digest: 5,
        },
        DeferredTx {
            estimate_us: 5,
            tx_digest: 5,
        },
    ];
    assert_eq!(next_deferred(&twice), Some(0));
}

#[test]
fn lifecycle_transitions() {
    let classified = TxPhase::Classified {
        source: SchedulingSource::FastPath,
    };
    assert!(phase_may_advance(TxPhase::Submitted, classified));
    assert!(phase_may_advance(TxPhase::Submitted, TxPhase::Rejected));
    assert!(phase_may_advance(classified, TxPhase::Executing));
    assert!(phase_may_advance(TxPhase::Executing, TxPhase::Finalized));
    assert!(phase_may_advance(TxPhase::Executing, TxPhase::Rejected));
    assert!(!phase_may_advance(TxPhase::Submitted, TxPhase::Finalized));
    assert!(!phase_may_advance(TxPhase::Finalized, TxPhase::Executing));
    assert!(!phase_may_advance(TxPhase::Rejected, classified));
}

#[test]
fn validity_rejects_malformed_reference() {
    let sender = Address { value: 11 };
    let config = ProtocolConfig::new(31, params(180, 3334, 500_000, 1_500_000));
    let intent = TransferIntent {
        sender,
        source: ObjectRef {
            id: ObjectId { value: 0 },
            version: 1,
            digest: 7,
        },
        recipient: sender,
        amount: 10,
    };
    assert_eq!(
        check(&intent, &config),
        Err(InvalidTransaction::MalformedObjectRef)
    );
}

#[test]
fn self_transfer_is_legal() {
    let sender = Address { value: 11 };
    let object = coin(3, sender, 1000);
    let mut store = ObjectStore::new();
    assert!(store.insert_new(object));
    let intent = TransferIntent {
        sender,
        source: object.object_ref(),
        recipient: sender,
        amount: 250,
    };
    let effects = execute(&intent, &mut store).unwrap();
    assert!(matches!(effects.status, ExecutionStatus::Success));
    assert_eq!(store.get(object.id).unwrap().balance, 750);
    assert_eq!(
        store.get(effects.created[0].id).unwrap().owner,
        Owner::Address { addr: sender }
    );
}

#[test]
fn disjoint_transfers_commute() {
    let alice = Address { value: 11 };
    let bob = Address { value: 33 };
    let recipient = Address { value: 22 };
    let coin_a = coin(3, alice, 1000);
    let coin_b = coin(4, bob, 800);
    let intent_a = TransferIntent {
        sender: alice,
        source: coin_a.object_ref(),
        recipient,
        amount: 100,
    };
    let intent_b = TransferIntent {
        sender: bob,
        source: coin_b.object_ref(),
        recipient,
        amount: 200,
    };

    let mut store_ab = ObjectStore::new();
    assert!(store_ab.insert_new(coin_a));
    assert!(store_ab.insert_new(coin_b));
    let ea1 = execute(&intent_a, &mut store_ab).unwrap();
    let eb2 = execute(&intent_b, &mut store_ab).unwrap();

    let mut store_ba = ObjectStore::new();
    assert!(store_ba.insert_new(coin_a));
    assert!(store_ba.insert_new(coin_b));
    let eb1 = execute(&intent_b, &mut store_ba).unwrap();
    let ea2 = execute(&intent_a, &mut store_ba).unwrap();

    // Same effects for each transfer in both orders.
    assert_eq!(ea1, ea2);
    assert_eq!(eb1, eb2);

    // Same posterior state on every object either order touched.
    for id in [coin_a.id, coin_b.id, ea1.created[0].id, eb1.created[0].id] {
        assert_eq!(store_ab.get(id), store_ba.get(id));
    }
    assert_eq!(store_ab.get(coin_a.id).unwrap().balance, 900);
    assert_eq!(store_ab.get(coin_b.id).unwrap().balance, 600);
}

#[test]
fn effects_builder_packages_the_aggregate() {
    let mut builder = EffectsBuilder::new();
    builder.push_mutated(ObjectId { value: 3 }, 2);
    builder.push_created(
        ObjectId { value: 8 },
        Owner::Address {
            addr: Address { value: 22 },
        },
    );
    builder.set_gas(GasSummary::zero());
    let effects = builder.build();
    assert!(matches!(effects.status, ExecutionStatus::Success));
    assert_eq!(effects.mutated.len(), 1);
    assert_eq!(effects.mutated[0].new_version, 2);
    assert_eq!(effects.created.len(), 1);
    assert_eq!(effects.deleted.len(), 0);
    assert_eq!(effects.gas.net_gas_usage(), 0);
}

#[test]
fn store_fails_fast_on_version_mismatch() {
    let owner = Address { value: 11 };
    let object = coin(3, owner, 1000);
    let mut store = ObjectStore::new();
    assert!(store.insert_new(object));
    assert!(!store.insert_new(object), "occupied identifier must refuse");

    let mut updated = object;
    updated.version = 2;
    updated.balance = 900;

    // Quoting the wrong expected version changes nothing.
    assert!(!store.replace_versioned(7, updated));
    assert_eq!(store.get(object.id).unwrap().balance, 1000);

    // The version must strictly increase.
    let mut level = object;
    level.balance = 900;
    assert!(!store.replace_versioned(1, level));

    // A correct optimistic update goes through.
    assert!(store.replace_versioned(1, updated));
    assert_eq!(store.get(object.id).unwrap().version, 2);
    assert_eq!(store.get(object.id).unwrap().balance, 900);
}
