//! Deterministic digests and identifier derivation.
//!
//! Every validator must compute byte-identical effects when replaying the
//! same transaction against the same prior state, so the digest of a
//! mutated record and the identifier of a created object are pure
//! functions of the transaction's contents.  The mixing below uses only
//! bitwise operations on `u64`, so it can never overflow or panic.

use vstd::prelude::*;
use crate::types::{ObjectId, Owner, TransferIntent};

verus! {

/// Seed that separates the digest domain from plain field values.
pub const DIGEST_SEED: u64 = 0x9E37_79B9_7F4A_7C15;

/// Fold one word into a running digest.
pub open spec fn spec_mix(acc: u64, word: u64) -> u64 {
    ((acc << 7) | (acc >> 57)) ^ (word ^ DIGEST_SEED)
}

/// Executable counterpart of [`spec_mix`].
pub fn mix(acc: u64, word: u64) -> (r: u64)
    ensures
        r == spec_mix(acc, word),
{
    ((acc << 7u64) | (acc >> 57u64)) ^ (word ^ DIGEST_SEED)
}

/// Encode an owner as a single word so it can enter a digest.
pub open spec fn spec_owner_word(owner: Owner) -> u64 {
    match owner {
        Owner::Address { addr } => spec_mix(1, addr.value),
        Owner::Shared => spec_mix(2, 0),
        Owner::Immutable => spec_mix(3, 0),
    }
}

/// Executable counterpart of [`spec_owner_word`].
pub fn owner_word(owner: &Owner) -> (r: u64)
    ensures
        r == spec_owner_word(*owner),
{
    match owner {
        Owner::Address { addr } => mix(1, addr.value),
        Owner::Shared => mix(2, 0),
        Owner::Immutable => mix(3, 0),
    }
}

/// Digest of an object record's contents.  Recomputed whenever a record
/// is mutated, so an input reference quoting the old digest goes stale.
pub open spec fn spec_record_digest(id: ObjectId, version: u64, owner: Owner, balance: u64) -> u64 {
    spec_mix(spec_mix(spec_mix(spec_mix(0, id.value), version), spec_owner_word(owner)), balance)
}

/// Executable counterpart of [`spec_record_digest`].
pub fn record_digest(id: ObjectId, version: u64, owner: &Owner, balance: u64) -> (r: u64)
    ensures
        r == spec_record_digest(id, version, *owner, balance),
{
    mix(mix(mix(mix(0, id.value), version), owner_word(owner)), balance)
}

/// Digest of a transfer intent: the unit that is signed and the seed from
/// which created-object identifiers are derived.
pub open spec fn spec_intent_digest(intent: TransferIntent) -> u64 {
    spec_mix(
        spec_mix(
            spec_mix(
                spec_mix(
                    spec_mix(spec_mix(0, intent.sender.value), intent.source.id.value),
                    intent.source.version,
                ),
                intent.source.digest,
            ),
            intent.recipient.value,
        ),
        intent.amount,
    )
}

/// Executable counterpart of [`spec_intent_digest`].
pub fn intent_digest(intent: &TransferIntent) -> (r: u64)
    ensures
        r == spec_intent_digest(*intent),
{
    mix(
        mix(
            mix(
                mix(mix(mix(0, intent.sender.value), intent.source.id.value), intent.source.version),
                intent.source.digest,
            ),
            intent.recipient.value,
        ),
        intent.amount,
    )
}

/// Identifier of the `index`-th object a transaction creates, derived
/// deterministically from the transaction digest so that every validator
/// replaying the transaction mints the same identifier.
pub open spec fn spec_derived_id(tx_digest: u64, index: u64) -> ObjectId {
    ObjectId { value: spec_mix(tx_digest, index) }
}

/// Executable counterpart of [`spec_derived_id`].
pub fn derived_id(tx_digest: u64, index: u64) -> (r: ObjectId)
    ensures
        r == spec_derived_id(tx_digest, index),
{
    ObjectId { value: mix(tx_digest, index) }
}

} // verus!
