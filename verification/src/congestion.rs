//! Congestion estimator: a rolling, per-object estimate of execution
//! cost, time-based rather than gas-based, consulted by the scheduler to
//! throttle contended objects.
//!
//! Each object carries a bounded sliding window of recent `(cost, stake)`
//! observations; the oldest is evicted once the window is full.  The
//! estimate is the stake-weighted median: the smallest observed cost at
//! or below which at least the configured share of the window's total
//! stake lies.  The estimator is advisory only — it steers scheduling
//! throughput and never affects executor correctness.

use vstd::prelude::*;
use std::collections::HashMap;
use crate::config::{CongestionParams, STAKE_BASIS};
use crate::types::ObjectId;

verus! {

broadcast use vstd::std_specs::hash::group_hash_axioms;

/// One execution-time sample: the observed cost in microseconds and the
/// stake, in basis points of [`STAKE_BASIS`], of the validators
/// reporting it.
#[derive(Clone, Copy, PartialEq, Eq, Structural, Debug)]
pub struct Observation {
    pub cost_us: u64,
    pub stake: u64,
}

/// Every stake in the window is a valid share of [`STAKE_BASIS`].
pub open spec fn stakes_bounded(obs: Seq<Observation>) -> bool {
    forall|i: int| 0 <= i < obs.len() ==> obs[i].stake <= STAKE_BASIS
}

/// Total stake across a window.
pub open spec fn total_stake(obs: Seq<Observation>) -> int
    decreases obs.len(),
{
    if obs.len() == 0 {
        0
    } else {
        total_stake(obs.drop_last()) + obs.last().stake
    }
}

/// Stake of the observations whose cost is at most `c`.
pub open spec fn stake_at_most(obs: Seq<Observation>, c: u64) -> int
    decreases obs.len(),
{
    if obs.len() == 0 {
        0
    } else {
        stake_at_most(obs.drop_last(), c) + if obs.last().cost_us <= c {
            obs.last().stake as int
        } else {
            0
        }
    }
}

/// Whether cost `c` gathers at least the `threshold` share (in basis
/// points of [`STAKE_BASIS`]) of the window's total stake at or below it.
pub open spec fn qualifies(obs: Seq<Observation>, threshold: u64, c: u64) -> bool {
    stake_at_most(obs, c) * STAKE_BASIS >= total_stake(obs) * threshold
}

/// Whether some observation in the window has cost exactly `c`.
pub open spec fn has_cost(obs: Seq<Observation>, c: u64) -> bool {
    exists|i: int| 0 <= i < obs.len() && obs[i].cost_us == c
}

/// The stake-weighted median: the smallest observed cost that qualifies.
pub open spec fn is_stake_weighted_median(obs: Seq<Observation>, threshold: u64, c: u64) -> bool {
    &&& has_cost(obs, c)
    &&& qualifies(obs, threshold, c)
    &&& forall|c2: u64| has_cost(obs, c2) && c2 < c ==> !qualifies(obs, threshold, c2)
}

/// Stakes are non-negative, so partial sums never exceed the total.
proof fn lemma_stake_sums(obs: Seq<Observation>, c: u64)
    ensures
        0 <= stake_at_most(obs, c) <= total_stake(obs),
        total_stake(obs) <= obs.len() * (u64::MAX as int),
        stakes_bounded(obs) ==> total_stake(obs) <= obs.len() * (STAKE_BASIS as int),
    decreases obs.len(),
{
    if obs.len() > 0 {
        assert(stakes_bounded(obs) ==> stakes_bounded(obs.drop_last()));
        lemma_stake_sums(obs.drop_last(), c);
    }
}

/// No cost exceeds `u64::MAX`, so at that cutoff the whole total counts.
proof fn lemma_stake_at_most_max(obs: Seq<Observation>)
    ensures
        stake_at_most(obs, u64::MAX) == total_stake(obs),
    decreases obs.len(),
{
    if obs.len() > 0 {
        lemma_stake_at_most_max(obs.drop_last());
    }
}

/// A cutoff at or above every observed cost gathers the whole total.
proof fn lemma_stake_at_most_all(obs: Seq<Observation>, c: u64)
    requires
        forall|i: int| 0 <= i < obs.len() ==> obs[i].cost_us <= c,
    ensures
        stake_at_most(obs, c) == total_stake(obs),
    decreases obs.len(),
{
    if obs.len() > 0 {
        assert(forall|i: int|
            0 <= i < obs.drop_last().len() ==> obs.drop_last()[i].cost_us <= c);
        lemma_stake_at_most_all(obs.drop_last(), c);
    }
}

/// A cost at least every observed cost qualifies under any valid
/// threshold: it gathers the whole total, and a valid threshold share of
/// the total is at most the total.
proof fn lemma_top_cost_qualifies(obs: Seq<Observation>, threshold: u64, c: u64)
    requires
        threshold <= STAKE_BASIS,
        forall|i: int| 0 <= i < obs.len() ==> obs[i].cost_us <= c,
    ensures
        qualifies(obs, threshold, c),
{
    lemma_stake_at_most_all(obs, c);
    lemma_stake_sums(obs, c);
    let t = total_stake(obs);
    assert(t * STAKE_BASIS >= t * threshold) by (nonlinear_arith)
        requires
            t >= 0,
            threshold <= STAKE_BASIS,
    ;
}

/// The stake-weighted median of a window is unique.
proof fn lemma_median_unique(obs: Seq<Observation>, threshold: u64, c1: u64, c2: u64)
    requires
        is_stake_weighted_median(obs, threshold, c1),
        is_stake_weighted_median(obs, threshold, c2),
    ensures
        c1 == c2,
{
}

/// The stake-weighted median of a non-empty window under a valid
/// threshold, as a definite value.
pub open spec fn spec_median(obs: Seq<Observation>, threshold: u64) -> u64 {
    choose|c: u64| is_stake_weighted_median(obs, threshold, c)
}

/// A cost capped at the configured maximum estimate.
pub open spec fn spec_capped(c: u64, cap: u64) -> u64 {
    if c > cap {
        cap
    } else {
        c
    }
}

/// Index of an observation of maximal cost.
spec fn max_cost_index(obs: Seq<Observation>) -> int
    decreases obs.len(),
{
    if obs.len() <= 1 {
        0
    } else {
        let r = max_cost_index(obs.drop_last());
        if obs.last().cost_us >= obs[r].cost_us {
            obs.len() - 1
        } else {
            r
        }
    }
}

/// The maximal-cost index is in range and its cost dominates the window.
proof fn lemma_max_cost_index(obs: Seq<Observation>)
    requires
        obs.len() >= 1,
    ensures
        0 <= max_cost_index(obs) < obs.len(),
        forall|i: int|
            0 <= i < obs.len() ==> #[trigger] obs[i].cost_us <= obs[max_cost_index(obs)].cost_us,
    decreases obs.len(),
{
    if obs.len() > 1 {
        lemma_max_cost_index(obs.drop_last());
        assert(forall|i: int| 0 <= i < obs.len() - 1 ==> obs[i] == obs.drop_last()[i]);
    }
}

/// A window after one sample is recorded: the sample is appended, and if
/// the window was full, the oldest observation is evicted first.
pub open spec fn spec_pushed_window(w: Seq<Observation>, o: Observation, limit: usize) -> Seq<
    Observation,
> {
    if w.len() < limit {
        w.push(o)
    } else {
        w.remove(0).push(o)
    }
}

/// Recording a sample into a bounded, bounded-stake window keeps the
/// window bounded and its stakes valid.
proof fn lemma_pushed_window_wf(w: Seq<Observation>, o: Observation, limit: usize)
    requires
        stakes_bounded(w),
        o.stake <= STAKE_BASIS,
        w.len() <= limit,
        limit >= 1,
    ensures
        stakes_bounded(spec_pushed_window(w, o, limit)),
        spec_pushed_window(w, o, limit).len() <= limit,
{
    let p = spec_pushed_window(w, o, limit);
    if w.len() < limit {
        assert forall|i: int| 0 <= i < p.len() implies p[i].stake <= STAKE_BASIS by {
            if i < w.len() {
                assert(p[i] == w[i]);
            } else {
                assert(p[i] == o);
            }
        }
    } else {
        w.remove_ensures(0);
        assert forall|i: int| 0 <= i < p.len() implies p[i].stake <= STAKE_BASIS by {
            if i < w.len() - 1 {
                assert(p[i] == w.remove(0)[i]);
                assert(w.remove(0)[i] == w[i + 1]);
            } else {
                assert(p[i] == o);
            }
        }
    }
}

/// Stake of the window's observations with cost at most `c`, summed
/// without overflow: at most `len` stakes of at most `u64::MAX` each.
fn stake_at_most_exec(obs: &Vec<Observation>, c: u64) -> (s: u128)
    ensures
        s == stake_at_most(obs@, c),
{
    let mut s: u128 = 0;
    let mut i: usize = 0;
    while i < obs.len()
        invariant
            0 <= i <= obs@.len(),
            s == stake_at_most(obs@.subrange(0, i as int), c),
            s <= (i as int) * (u64::MAX as int),
        decreases obs@.len() - i,
    {
        proof {
            assert(obs@.subrange(0, i + 1).drop_last() =~= obs@.subrange(0, i as int));
            assert(obs@.subrange(0, i + 1).last() == obs@[i as int]);
        }
        if obs[i].cost_us <= c {
            s = s + obs[i].stake as u128;
        }
        i = i + 1;
    }
    proof {
        assert(obs@.subrange(0, obs@.len() as int) =~= obs@);
    }
    s
}

/// The stake-weighted median of a non-empty window: the smallest observed
/// cost gathering at least the threshold share of total stake.
fn weighted_median_exec(obs: &Vec<Observation>, threshold: u64) -> (m: u64)
    requires
        obs@.len() >= 1,
        threshold <= STAKE_BASIS,
        stakes_bounded(obs@),
    ensures
        is_stake_weighted_median(obs@, threshold, m),
        m == spec_median(obs@, threshold),
{
    proof {
        lemma_stake_at_most_max(obs@);
        lemma_stake_sums(obs@, u64::MAX);
    }
    let total = stake_at_most_exec(obs, u64::MAX);
    let mut best: Option<u64> = None;
    let mut i: usize = 0;
    while i < obs.len()
        invariant
            0 <= i <= obs@.len(),
            threshold <= STAKE_BASIS,
            stakes_bounded(obs@),
            total == total_stake(obs@),
            total <= obs@.len() * (STAKE_BASIS as int),
            best is None ==> forall|j: int|
                0 <= j < i ==> !qualifies(obs@, threshold, obs@[j].cost_us),
            best matches Some(b) ==> {
                &&& has_cost(obs@, b)
                &&& qualifies(obs@, threshold, b)
                &&& forall|j: int|
                    0 <= j < i && obs@[j].cost_us < b ==> !qualifies(
                        obs@,
                        threshold,
                        obs@[j].cost_us,
                    )
            },
        decreases obs@.len() - i,
    {
        let c = obs[i].cost_us;
        let take = match best {
            Some(b) => c < b,
            None => true,
        };
        if take {
            let s = stake_at_most_exec(obs, c);
            proof {
                lemma_stake_sums(obs@, c);
                assert(total * threshold <= (obs@.len() as int) * (STAKE_BASIS as int) * (
                STAKE_BASIS as int)) by (nonlinear_arith)
                    requires
                        0 <= total <= obs@.len() * (STAKE_BASIS as int),
                        threshold <= STAKE_BASIS,
                ;
            }
            if s * (STAKE_BASIS as u128) >= total * (threshold as u128) {
                best = Some(c);
            }
        }
        i = i + 1;
    }
    match best {
        Some(b) => {
            proof {
                assert forall|c2: u64| has_cost(obs@, c2) && c2 < b implies !qualifies(
                    obs@,
                    threshold,
                    c2,
                ) by {
                    let j = choose|j: int| 0 <= j < obs@.len() && obs@[j].cost_us == c2;
                    assert(!qualifies(obs@, threshold, obs@[j].cost_us));
                }
                lemma_median_unique(obs@, threshold, b, spec_median(obs@, threshold));
            }
            b
        },
        None => {
            // Unreachable: the largest observed cost always qualifies.
            proof {
                lemma_max_cost_index(obs@);
                let jm = max_cost_index(obs@);
                lemma_top_cost_qualifies(obs@, threshold, obs@[jm].cost_us);
                assert(false);
            }
            0
        },
    }
}

/// The per-object congestion estimator.
pub struct CongestionEstimator {
    windows: HashMap<u64, Vec<Observation>>,
    params: CongestionParams,
}

impl CongestionEstimator {
    /// The parameters the estimator was configured with.
    pub closed spec fn spec_params(self) -> CongestionParams {
        self.params
    }

    /// The observation window currently held for an object; empty if the
    /// object has no history.
    pub closed spec fn window_of(self, id: ObjectId) -> Seq<Observation> {
        if self.windows@.contains_key(id.value) {
            self.windows@[id.value]@
        } else {
            Seq::<Observation>::empty()
        }
    }

    /// Well-formedness: the configuration is sane, every window respects
    /// the configured bound (memory-boundedness under sustained load),
    /// and every recorded stake is a valid share.
    pub open spec fn wf(self) -> bool {
        &&& self.spec_params().wf()
        &&& forall|id: ObjectId| #[trigger]
            self.window_of(id).len() <= self.spec_params().stored_observations_limit
        &&& forall|id: ObjectId| stakes_bounded(#[trigger] self.window_of(id))
    }

    /// A fresh estimator with no history for any object.
    pub fn new(params: CongestionParams) -> (e: CongestionEstimator)
        requires
            params.wf(),
        ensures
            e.wf(),
            e.spec_params() == params,
            forall|id: ObjectId| #[trigger] e.window_of(id) == Seq::<Observation>::empty(),
    {
        CongestionEstimator { windows: HashMap::new(), params }
    }

    /// The configuration in force, for callers that branch on it.
    pub fn params(&self) -> (p: CongestionParams)
        ensures
            p == self.spec_params(),
    {
        self.params
    }

    /// Record one execution-time sample for an object, evicting the
    /// oldest sample first if the window is full.  Windows of other
    /// objects are untouched.
    pub fn record_sample(&mut self, id: ObjectId, cost_us: u64, stake: u64)
        requires
            old(self).wf(),
            stake <= STAKE_BASIS,
        ensures
            final(self).wf(),
            final(self).spec_params() == old(self).spec_params(),
            final(self).window_of(id) == spec_pushed_window(
                old(self).window_of(id),
                Observation { cost_us, stake },
                old(self).spec_params().stored_observations_limit,
            ),
            forall|other: ObjectId|
                other.value != id.value ==> #[trigger] final(self).window_of(other) == old(
                    self,
                ).window_of(other),
    {
        let mut w = match self.windows.remove(&id.value) {
            Some(v) => v,
            None => Vec::new(),
        };
        if w.len() >= self.params.stored_observations_limit {
            w.remove(0);
        }
        w.push(Observation { cost_us, stake });
        self.windows.insert(id.value, w);
        proof {
            let o = Observation { cost_us, stake };
            let limit = self.params.stored_observations_limit;
            lemma_pushed_window_wf(old(self).window_of(id), o, limit);
            assert(self.window_of(id) == spec_pushed_window(old(self).window_of(id), o, limit));
            assert forall|oid: ObjectId| #[trigger] self.window_of(oid).len() <= limit by {
                if oid.value == id.value {
                    assert(self.window_of(oid) == self.window_of(id));
                } else {
                    assert(self.window_of(oid) == old(self).window_of(oid));
                    assert(old(self).window_of(oid).len() <= limit);
                }
            }
            assert forall|oid: ObjectId| stakes_bounded(#[trigger] self.window_of(oid)) by {
                if oid.value == id.value {
                    assert(self.window_of(oid) == self.window_of(id));
                } else {
                    assert(self.window_of(oid) == old(self).window_of(oid));
                    assert(stakes_bounded(old(self).window_of(oid)));
                }
            }
        }
    }

    /// The advisory cost estimate for an object.  With history: the
    /// stake-weighted median of the window, capped at the configured
    /// maximum.  Without history: no estimate when the configuration says
    /// new keys carry none, a zero estimate otherwise.
    pub fn estimate(&self, id: ObjectId) -> (r: Option<u64>)
        requires
            self.wf(),
        ensures
            self.window_of(id).len() == 0 ==> r == (if self
                .spec_params()
                .default_none_duration_for_new_keys {
                None
            } else {
                Some(0u64)
            }),
            self.window_of(id).len() > 0 ==> r == Some(
                spec_capped(
                    spec_median(
                        self.window_of(id),
                        self.spec_params().stake_weighted_median_threshold,
                    ),
                    self.spec_params().max_estimate_us,
                ),
            ),
    {
        match self.windows.get(&id.value) {
            Some(w) if w.len() > 0 => {
                proof {
                    assert(self.window_of(id) == w@);
                    assert(stakes_bounded(self.window_of(id)));
                }
                let m = weighted_median_exec(w, self.params.stake_weighted_median_threshold);
                if m > self.params.max_estimate_us {
                    Some(self.params.max_estimate_us)
                } else {
                    Some(m)
                }
            },
            _ => {
                if self.params.default_none_duration_for_new_keys {
                    None
                } else {
                    Some(0)
                }
            },
        }
    }
}

} // verus!
