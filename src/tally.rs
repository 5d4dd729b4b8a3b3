//! The shape of a run (how many workers, how many batches each) and the
//! reduction of the workers' hit counts into one total.
use vstd::prelude::*;
use crate::sample::{Worker, LANES_PER_BATCH};
use crate::rng::lanes_after;

verus! {

/// Workers in a standard run.
pub const DEFAULT_WORKERS: u64 = 13;

/// Batches per worker in a standard run.
pub const DEFAULT_ITERATIONS: u64 = 2_500_000_000;

/// The lanes sampled by `workers` workers running `iterations` batches each.
pub open spec fn total_lanes(iterations: int, workers: int) -> int {
    iterations * workers * LANES_PER_BATCH
}

/// The sum of a sequence of counts.
pub open spec fn sum(s: Seq<u64>) -> nat
    decreases s.len(),
{
    if s.len() == 0 {
        0
    } else {
        sum(s.drop_last()) + s.last() as nat
    }
}

/// A validated run: at least one worker, at least one batch each, and a
/// total lane count that fits in 64 bits.
pub struct RunConfig {
    workers: u64,
    iterations: u64,
}

impl RunConfig {
    /// The number of workers.
    pub closed spec fn spec_workers(&self) -> u64 {
        self.workers
    }

    /// The number of batches each worker runs.
    pub closed spec fn spec_iterations(&self) -> u64 {
        self.iterations
    }

    /// What `new` checks.
    pub open spec fn valid(workers: u64, iterations: u64) -> bool {
        &&& workers >= 1
        &&& iterations >= 1
        &&& total_lanes(iterations as int, workers as int) <= u64::MAX
    }

    /// The run passes the checks of `new`.
    pub open spec fn wf(&self) -> bool {
        Self::valid(self.spec_workers(), self.spec_iterations())
    }

    /// A run of `workers` workers with `iterations` batches each, or `None`
    /// where either is zero or the total lane count overflows 64 bits.
    pub fn new(workers: u64, iterations: u64) -> (r: Option<RunConfig>)
        ensures
            r is Some <==> Self::valid(workers, iterations),
            r matches Some(c) ==> c.wf() && c.spec_workers() == workers && c.spec_iterations() == iterations,
    {
        if workers == 0 || iterations == 0 {
            return None;
        }
        match iterations.checked_mul(workers) {
            None => {
                proof {
                    assert(iterations * workers * LANES_PER_BATCH >= iterations * workers) by (nonlinear_arith)
                        requires
                            iterations * workers >= 0,
                    ;
                }
                None
            },
            Some(p) => match p.checked_mul(LANES_PER_BATCH) {
                None => None,
                Some(_) => Some(RunConfig { workers, iterations }),
            },
        }
    }

    /// The standard run: thirteen workers, two and a half billion batches each.
    pub fn standard() -> (r: RunConfig)
        ensures
            r.wf(),
            r.spec_workers() == DEFAULT_WORKERS,
            r.spec_iterations() == DEFAULT_ITERATIONS,
    {
        RunConfig { workers: DEFAULT_WORKERS, iterations: DEFAULT_ITERATIONS }
    }

    /// The number of workers.
    pub fn workers(&self) -> (r: u64)
        ensures
            r == self.spec_workers(),
    {
        self.workers
    }

    /// The number of batches each worker runs.
    pub fn iterations(&self) -> (r: u64)
        ensures
            r == self.spec_iterations(),
    {
        self.iterations
    }

    /// The lanes sampled over the whole run: iterations × workers × 8.
    pub fn total_samples(&self) -> (r: u64)
        requires
            self.wf(),
        ensures
            r == total_lanes(self.spec_iterations() as int, self.spec_workers() as int),
    {
        self.iterations * self.workers * LANES_PER_BATCH
    }

    /// A fresh worker for this run, freshly seeded.
    pub fn spawn_worker(&self) -> (w: Worker)
        requires
            self.wf(),
        ensures
            w.wf(),
            exists|seed: u64| w.lanes() == lanes_after(seed, 0),
            w.spec_iterations() == self.spec_iterations(),
            w.spec_done() == 0,
            w.spec_hits() == 0,
    {
        proof {
            let i = self.spec_iterations() as int;
            let n = self.spec_workers() as int;
            assert(i * LANES_PER_BATCH <= i * n * LANES_PER_BATCH) by (nonlinear_arith)
                requires
                    i >= 0,
                    n >= 1,
            ;
        }
        Worker::spawn(self.iterations)
    }
}

/// The total of the workers' counts, or `None` where it overflows 64 bits.
pub fn sum_counts(locals: &Vec<u64>) -> (r: Option<u64>)
    ensures
        r == (if sum(locals@) <= u64::MAX { Some(sum(locals@) as u64) } else { None::<u64> }),
{
    let mut total: u64 = 0;
    let mut k: usize = 0;
    while k < locals.len()
        invariant
            k <= locals@.len(),
            total == sum(locals@.subrange(0, k as int)),
        decreases locals@.len() - k,
    {
        assert(locals@.subrange(0, k + 1).drop_last() =~= locals@.subrange(0, k as int));
        match total.checked_add(locals[k]) {
            None => {
                proof {
                    lemma_sum_prefix_monotonic(locals@, k + 1);
                }
                return None;
            },
            Some(t) => {
                total = t;
            },
        }
        k = k + 1;
    }
    assert(locals@.subrange(0, locals@.len() as int) =~= locals@);
    Some(total)
}

/// The sum of a prefix is at most the sum of the whole.
proof fn lemma_sum_prefix_monotonic(s: Seq<u64>, k: int)
    requires
        0 <= k <= s.len(),
    ensures
        sum(s.subrange(0, k)) <= sum(s),
    decreases s.len() - k,
{
    if k < s.len() {
        lemma_sum_prefix_monotonic(s, k + 1);
        assert(s.subrange(0, k + 1).drop_last() =~= s.subrange(0, k));
    } else {
        assert(s.subrange(0, k) =~= s);
    }
}

/// The hits of workers that each counted at most eight lanes per batch over
/// `iterations` batches add up to at most the run's total lane count, so the
/// reduction of a run never overflows.
pub proof fn lemma_hits_within_total(locals: Seq<u64>, iterations: u64)
    requires
        forall|k: int| 0 <= k < locals.len() ==> locals[k] <= LANES_PER_BATCH * iterations,
    ensures
        sum(locals) <= total_lanes(iterations as int, locals.len() as int),
    decreases locals.len(),
{
    if locals.len() > 0 {
        lemma_hits_within_total(locals.drop_last(), iterations);
        let n = locals.len() as int;
        let i = iterations as int;
        assert(i * (n - 1) * LANES_PER_BATCH + LANES_PER_BATCH * i == i * n * LANES_PER_BATCH) by (nonlinear_arith);
    }
}

} // verus!
