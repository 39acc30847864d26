use ledger_core::config::{CongestionParams, ProtocolConfig};
use ledger_core::congestion::CongestionEstimator;
use ledger_core::digest::record_digest;
use ledger_core::effects::{ExecutionFailureStatus, ExecutionStatus};
use ledger_core::executor::{created_object_id, execute};
use ledger_core::pipeline::{process_transaction, RejectionReason, SubmissionOutcome};
use ledger_core::scheduler::{Scheduler, SchedulingSource};
use ledger_core::store::ObjectStore;
use ledger_core::types::{Address, ObjectId, ObjectRecord, ObjectRef, Owner, TransferIntent};
use ledger_core::validity::check;

/// Get a protocol config with the congestion control mode the execution
/// engine under test expects.
fn protocol_config_v2() -> ProtocolConfig {
    ProtocolConfig::new(
        31,
        CongestionParams {
            target_utilization: 50,
            allowed_txn_cost_overage_burst_limit_us: 500_000,
            randomness_scalar: 20,
            max_estimate_us: 1_500_000,
            stored_observations_num_included_checkpoints: 10,
            stored_observations_limit: 180,
            stake_weighted_median_threshold: 3334,
            default_none_duration_for_new_keys: true,
            observations_chunk_size: Some(18),
        },
    )
}

/// A gas coin of the given balance, owned by `owner`, at version 1.
fn new_coin(id: u64, owner: Address, balance: u64) -> ObjectRecord {
    let coin_id = ObjectId { value: id };
    let ownership = Owner::Address { addr: owner };
    let digest = record_digest(coin_id, 1, &ownership, balance);
    ObjectRecord {
        id: coin_id,
        version: 1,
        owner: ownership,
        digest,
        balance,
    }
}

fn fresh_scheduler() -> Scheduler {
    Scheduler::new(CongestionEstimator::new(protocol_config_v2().congestion))
}

#[test]
fn test_native_transfer_success() {
    let sender = Address { value: 11 };
    let recipient = Address { value: 22 };

    // Create a gas coin with 1000 MIST
    let coin_value = 1000;
    let coin_object = new_coin(3, sender, coin_value);
    let coin_id = coin_object.id;
    let coin_ref = coin_object.object_ref();

    let mut state = ObjectStore::new();
    assert!(state.insert_new(coin_object));
    let mut sched = fresh_scheduler();
    let config = protocol_config_v2();

    // Create and execute the native transfer transaction
    let transfer_amount = 500;
    let intent = TransferIntent {
        sender,
        source: coin_ref,
        recipient,
        amount: transfer_amount,
    };
    let outcome = process_transaction(&intent, &mut state, &mut sched, &config, false);

    let effects = match outcome {
        SubmissionOutcome::Finalized { effects, .. } => effects,
        _ => panic!("expected a finalized transaction"),
    };

    // Verify execution succeeded
    assert!(matches!(effects.status, ExecutionStatus::Success));

    // Verify gas was not charged (unmetered)
    assert_eq!(
        effects.gas.net_gas_usage(),
        0,
        "NativeTransfer should not charge gas"
    );

    // Verify the coin was updated correctly
    let updated_coin = state.get(coin_id).unwrap();
    assert_eq!(
        updated_coin.balance,
        coin_value - transfer_amount,
        "Source coin should have amount deducted"
    );

    // Verify new coin was created for recipient
    assert_eq!(effects.created.len(), 1, "Should create one new coin");
    let new_coin_id = effects.created[0].id;
    let new_coin = state.get(new_coin_id).unwrap();
    assert_eq!(
        new_coin.balance, transfer_amount,
        "New coin should have transfer amount"
    );
    assert_eq!(
        new_coin.owner,
        Owner::Address { addr: recipient },
        "New coin should be owned by recipient"
    );
}

#[test]
fn test_native_transfer_insufficient_balance() {
    let sender = Address { value: 11 };
    let recipient = Address { value: 22 };

    // Create a gas coin with only 100 MIST
    let coin_value = 100;
    let coin_object = new_coin(3, sender, coin_value);
    let coin_ref = coin_object.object_ref();

    let mut state = ObjectStore::new();
    assert!(state.insert_new(coin_object));
    let mut sched = fresh_scheduler();
    let config = protocol_config_v2();

    // Try to transfer more than available
    let transfer_amount = 500; // More than coin_value
    let intent = TransferIntent {
        sender,
        source: coin_ref,
        recipient,
        amount: transfer_amount,
    };
    let outcome = process_transaction(&intent, &mut state, &mut sched, &config, false);

    // The transaction is still finalized; its failure is a ledger fact.
    if let SubmissionOutcome::Finalized { effects, .. } = outcome {
        assert!(
            !matches!(effects.status, ExecutionStatus::Success),
            "Transaction should fail with insufficient balance"
        );
        match effects.status {
            ExecutionStatus::Failure {
                error: ExecutionFailureStatus::InsufficientCoinBalance,
            } => {
                // Expected failure
            }
            status => {
                panic!("Should fail with InsufficientCoinBalance, got: {:?}", status);
            }
        }
    } else {
        panic!("Unexpected rejection from process_transaction");
    }
}

#[test]
fn test_native_transfer_wrong_owner() {
    let sender = Address { value: 11 };
    let other_owner = Address { value: 33 };
    let recipient = Address { value: 22 };

    // Create a gas coin owned by someone else
    let coin_value = 1000;
    let coin_object = new_coin(3, other_owner, coin_value); // Not owned by sender
    let coin_ref = coin_object.object_ref();

    let mut state = ObjectStore::new();
    assert!(state.insert_new(coin_object));
    let mut sched = fresh_scheduler();
    let config = protocol_config_v2();

    // Try to transfer with wrong owner
    let transfer_amount = 500;
    let intent = TransferIntent {
        sender, // Different from coin owner
        source: coin_ref,
        recipient,
        amount: transfer_amount,
    };
    let outcome = process_transaction(&intent, &mut state, &mut sched, &config, false);

    // Execute should fail
    let error = match outcome {
        SubmissionOutcome::Rejected {
            error: RejectionReason::Execution { error },
        } => error,
        _ => panic!("Should fail with wrong owner"),
    };
    let message = error.describe();
    assert!(
        message.contains("owner") || message.contains("owned"),
        "Error should mention ownership: {}",
        message
    );
}

#[test]
fn test_native_transfer_zero_amount() {
    let sender = Address { value: 11 };
    let recipient = Address { value: 22 };

    // Create a gas coin
    let coin_value = 1000;
    let coin_object = new_coin(3, sender, coin_value);
    let coin_ref = coin_object.object_ref();

    let mut state = ObjectStore::new();
    assert!(state.insert_new(coin_object));
    let config = protocol_config_v2();

    // Try to transfer zero amount
    let transfer_amount = 0;
    let intent = TransferIntent {
        sender,
        source: coin_ref,
        recipient,
        amount: transfer_amount,
    };

    // Should fail validation
    let validity_result = check(&intent, &config);
    assert!(
        validity_result.is_err(),
        "Should fail validation for zero amount"
    );
}

#[test]
fn test_native_transfer_fast_path() {
    let sender = Address { value: 11 };
    let recipient = Address { value: 22 };

    // Create a gas coin
    let coin_value = 1000;
    let coin_object = new_coin(3, sender, coin_value);
    let coin_ref = coin_object.object_ref();

    let mut state = ObjectStore::new();
    assert!(state.insert_new(coin_object));
    let mut sched = fresh_scheduler();
    let config = protocol_config_v2();

    // Execute via fast path: a quorum certificate is supplied, and the
    // only referenced object is address-owned.
    let transfer_amount = 500;
    let intent = TransferIntent {
        sender,
        source: coin_ref,
        recipient,
        amount: transfer_amount,
    };
    let outcome = process_transaction(&intent, &mut state, &mut sched, &config, true);

    let (effects, source) = match outcome {
        SubmissionOutcome::Finalized { effects, source } => (effects, source),
        _ => panic!("expected a finalized transaction"),
    };
    assert_eq!(source, SchedulingSource::FastPath);

    // Verify execution succeeded
    if !matches!(effects.status, ExecutionStatus::Success) {
        panic!("Transaction execution failed: {:?}", effects.status);
    }

    // Verify no gas was charged
    assert_eq!(
        effects.gas.net_gas_usage(),
        0,
        "NativeTransfer should not charge gas even in fast path"
    );
}

#[test]
fn test_native_transfer_full_amount() {
    let sender = Address { value: 11 };
    let recipient = Address { value: 22 };

    // Create a gas coin
    let coin_value = 1000;
    let coin_object = new_coin(3, sender, coin_value);
    let coin_id = coin_object.id;
    let coin_ref = coin_object.object_ref();

    let mut state = ObjectStore::new();
    assert!(state.insert_new(coin_object));
    let mut sched = fresh_scheduler();
    let config = protocol_config_v2();

    // Transfer the full amount
    let transfer_amount = coin_value;
    let intent = TransferIntent {
        sender,
        source: coin_ref,
        recipient,
        amount: transfer_amount,
    };
    let outcome = process_transaction(&intent, &mut state, &mut sched, &config, false);

    let effects = match outcome {
        SubmissionOutcome::Finalized { effects, .. } => effects,
        _ => panic!("expected a finalized transaction"),
    };

    // Verify execution succeeded
    if !matches!(effects.status, ExecutionStatus::Success) {
        panic!("Transaction execution failed: {:?}", effects.status);
    }

    // Verify the source coin has zero balance but still exists
    let updated_coin = state.get(coin_id).unwrap();
    assert_eq!(
        updated_coin.balance, 0,
        "Source coin should have zero balance after full transfer"
    );

    // Verify new coin has full amount
    assert_eq!(effects.created.len(), 1, "Should create one new coin");
    let new_coin_id = effects.created[0].id;
    let new_coin = state.get(new_coin_id).unwrap();
    assert_eq!(
        new_coin.balance, transfer_amount,
        "New coin should have full transfer amount"
    );
}

#[test]
fn test_native_transfer_multiple_transfers() {
    let sender = Address { value: 11 };
    let recipient1 = Address { value: 22 };
    let recipient2 = Address { value: 44 };

    // Create a gas coin with enough for multiple transfers
    let coin_value = 2000;
    let coin_object = new_coin(3, sender, coin_value);
    let coin_id = coin_object.id;
    let coin_ref = coin_object.object_ref();

    let mut state = ObjectStore::new();
    assert!(state.insert_new(coin_object));
    let mut sched = fresh_scheduler();
    let config = protocol_config_v2();

    // First transfer
    let transfer_amount1 = 500;
    let intent1 = TransferIntent {
        sender,
        source: coin_ref,
        recipient: recipient1,
        amount: transfer_amount1,
    };
    let outcome1 = process_transaction(&intent1, &mut state, &mut sched, &config, false);
    let effects1 = match outcome1 {
        SubmissionOutcome::Finalized { effects, .. } => effects,
        _ => panic!("First transaction was not finalized"),
    };
    if !matches!(effects1.status, ExecutionStatus::Success) {
        panic!("First transaction execution failed: {:?}", effects1.status);
    }

    // Get updated coin reference
    let updated_coin1 = state.get(coin_id).unwrap();
    let updated_coin_ref1 = updated_coin1.object_ref();

    // Second transfer from the same coin
    let transfer_amount2 = 300;
    let intent2 = TransferIntent {
        sender,
        source: updated_coin_ref1,
        recipient: recipient2,
        amount: transfer_amount2,
    };
    let outcome2 = process_transaction(&intent2, &mut state, &mut sched, &config, false);
    let effects2 = match outcome2 {
        SubmissionOutcome::Finalized { effects, .. } => effects,
        _ => panic!("Second transaction was not finalized"),
    };
    if !matches!(effects2.status, ExecutionStatus::Success) {
        panic!("Second transaction execution failed: {:?}", effects2.status);
    }

    // Verify final balance
    let final_coin = state.get(coin_id).unwrap();
    assert_eq!(
        final_coin.balance,
        coin_value - transfer_amount1 - transfer_amount2,
        "Final balance should be correct after multiple transfers"
    );

    // Verify both recipients received coins
    assert_eq!(effects1.created.len(), 1);
    assert_eq!(effects2.created.len(), 1);
    let coin1 = state.get(effects1.created[0].id).unwrap();
    let coin2 = state.get(effects2.created[0].id).unwrap();
    assert_eq!(coin1.balance, 500);
    assert_eq!(coin2.balance, 300);
    assert_eq!(coin1.owner, Owner::Address { addr: recipient1 });
    assert_eq!(coin2.owner, Owner::Address { addr: recipient2 });
}

#[test]
fn test_stale_reference_rejected() {
    let sender = Address { value: 11 };
    let recipient = Address { value: 22 };
    let coin_object = new_coin(3, sender, 1000);
    let coin_ref = coin_object.object_ref();

    let mut state = ObjectStore::new();
    assert!(state.insert_new(coin_object));

    // Spend the coin once so the original reference goes stale.
    let intent1 = TransferIntent {
        sender,
        source: coin_ref,
        recipient,
        amount: 100,
    };
    assert!(execute(&intent1, &mut state).is_ok());

    // Quoting the old (version, digest) pair must be rejected hard.
    let intent2 = TransferIntent {
        sender,
        source: coin_ref,
        recipient,
        amount: 100,
    };
    let result = execute(&intent2, &mut state);
    assert!(result.is_err());

    // The store is untouched by the rejected attempt.
    assert_eq!(state.get(coin_ref.id).unwrap().balance, 900);
}

#[test]
fn test_created_id_is_deterministic() {
    let sender = Address { value: 11 };
    let recipient = Address { value: 22 };
    let coin_object = new_coin(3, sender, 1000);
    let intent = TransferIntent {
        sender,
        source: coin_object.object_ref(),
        recipient,
        amount: 500,
    };
    // Replaying the same intent derives the same destination identifier.
    assert_eq!(created_object_id(&intent), created_object_id(&intent));
    // A different intent derives a different one.
    let other = TransferIntent {
        amount: 501,
        ..intent
    };
    assert_ne!(created_object_id(&intent), created_object_id(&other));
}
