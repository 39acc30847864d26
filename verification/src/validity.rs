//! Validity checker: pure, side-effect-free admission gate run before any
//! store access.  Given identical protocol configuration it returns the
//! same verdict on every validator, so it can gate entry into the
//! transaction pool.

use vstd::prelude::*;
use crate::config::ProtocolConfig;
use crate::types::TransferIntent;

verus! {

/// Admission-time structural defects.  A transaction rejected here is
/// never scheduled, never executed and leaves no ledger trace.
#[derive(Clone, Copy, PartialEq, Eq, Structural, Debug)]
pub enum InvalidTransaction {
    /// The declared amount is zero; a transfer must move a positive amount.
    ZeroAmount,
    /// The source reference names the reserved zero identifier.
    MalformedObjectRef,
}

/// The checker's verdict as a mathematical function of the intent alone.
pub open spec fn spec_check(intent: TransferIntent) -> Result<(), InvalidTransaction> {
    if intent.amount == 0 {
        Err(InvalidTransaction::ZeroAmount)
    } else if intent.source.id.value == 0 {
        Err(InvalidTransaction::MalformedObjectRef)
    } else {
        Ok(())
    }
}

/// Inspect a transaction's declared intent and reject it before any state
/// is touched if it is structurally invalid.  Pure: the verdict depends
/// on the intent alone, so identical protocol configuration trivially
/// yields identical verdicts across validators.  Self-transfer is legal
/// and any `u64` version is non-negative, so neither is constrained.
pub fn check(intent: &TransferIntent, _config: &ProtocolConfig) -> (r: Result<(), InvalidTransaction>)
    ensures
        r == spec_check(*intent),
{
    if intent.amount == 0 {
        Err(InvalidTransaction::ZeroAmount)
    } else if intent.source.id.value == 0 {
        Err(InvalidTransaction::MalformedObjectRef)
    } else {
        Ok(())
    }
}

} // verus!
