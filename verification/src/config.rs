//! Protocol configuration consumed by the scheduler and the congestion
//! estimator.  Loaded by the surrounding node software and treated as
//! opaque input here: the parameters affect scheduling only, never the
//! executor's correctness.

use vstd::prelude::*;

verus! {

/// Stake shares are expressed in basis points of this total.
pub const STAKE_BASIS: u64 = 10000;

/// Numeric parameters of per-object congestion control, all costs in
/// microseconds of estimated execution time.
#[derive(Clone, Copy, PartialEq, Eq, Structural, Debug)]
pub struct CongestionParams {
    /// Target share of a checkpoint interval to fill with work.
    pub target_utilization: u64,
    /// Per-checkpoint budget an object's accumulated estimated cost may
    /// reach before further transactions on it are deferred.
    pub allowed_txn_cost_overage_burst_limit_us: u64,
    /// Scalar applied to randomness-using transactions by the
    /// surrounding scheduler.
    pub randomness_scalar: u64,
    /// Upper bound on any estimate the estimator reports.
    pub max_estimate_us: u64,
    /// How many recent checkpoint intervals contribute observations.
    pub stored_observations_num_included_checkpoints: u64,
    /// Bound on the per-object observation window; the oldest sample is
    /// evicted once the window is full.
    pub stored_observations_limit: usize,
    /// Share of total stake, in basis points of [`STAKE_BASIS`], that must
    /// lie at or below a cost for it to be the stake-weighted median.
    pub stake_weighted_median_threshold: u64,
    /// Whether an object with no recorded history reports no estimate at
    /// all (treated as zero cost) rather than a zero estimate.
    pub default_none_duration_for_new_keys: bool,
    /// Batch size used when observations are shipped between validators.
    pub observations_chunk_size: Option<u64>,
}

impl CongestionParams {
    /// The parameters the estimator's contracts depend on are sane: the
    /// median threshold is a valid stake share and the window holds at
    /// least one sample.
    pub open spec fn wf(self) -> bool {
        &&& self.stake_weighted_median_threshold <= STAKE_BASIS
        &&& self.stored_observations_limit >= 1
    }

    /// Runtime counterpart of [`CongestionParams::wf`].
    pub fn is_wf(&self) -> (b: bool)
        ensures
            b == self.wf(),
    {
        self.stake_weighted_median_threshold <= STAKE_BASIS && self.stored_observations_limit >= 1
    }
}

/// Protocol configuration: the protocol version plus the congestion
/// control parameters in force for it.
#[derive(Clone, Copy, PartialEq, Eq, Structural, Debug)]
pub struct ProtocolConfig {
    pub version: u64,
    pub congestion: CongestionParams,
}

impl ProtocolConfig {
    pub open spec fn wf(self) -> bool {
        self.congestion.wf()
    }

    /// Assemble a configuration from a protocol version and its
    /// congestion parameters.
    pub fn new(version: u64, congestion: CongestionParams) -> (c: ProtocolConfig)
        ensures
            c.version == version,
            c.congestion == congestion,
    {
        ProtocolConfig { version, congestion }
    }
}

} // verus!
