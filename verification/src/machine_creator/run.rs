//! A run over all explored hosts, which creates no more machines than it is allowed to.
use vstd::prelude::*;

use crate::exploration_metrics::SiteExplorationMetrics;
use crate::machine_creator::ingestion::MachineCreator;

verus! {

impl MachineCreator {
    /// One step of a run: counts one host's ingestion by its result, if it had one, and says
    /// whether the run is over: that is so when the count has just reached the number of
    /// machines per run.
    pub fn create_machines(
        &self,
        metrics: &mut SiteExplorationMetrics,
        created: Option<bool>,
    ) -> (r: bool)
        requires
            created == Some(true) ==> old(metrics).created_machines < usize::MAX,
        ensures
            *final(metrics) == (SiteExplorationMetrics {
                created_machines: (old(metrics).created_machines + (if created == Some(true) {
                    1int
                } else {
                    0int
                })) as usize,
                ..*old(metrics)
            }),
            r == (created == Some(true) && final(metrics).created_machines
                == self.machines_created_per_run),
    {
        match created {
            Some(true) => {
                metrics.created_machines = metrics.created_machines + 1;
                metrics.created_machines as u64 == self.machines_created_per_run
            },
            _ => false,
        }
    }
}

/// How many of the results of a run count as created.
pub open spec fn created_count(results: Seq<Option<bool>>) -> nat
    decreases results.len(),
{
    if results.len() == 0 {
        0
    } else if results.last() == Some(true) {
        created_count(results.drop_last()) + 1
    } else {
        created_count(results.drop_last())
    }
}

/// Whether a run goes on to every one of these hosts: it is not over before the last one.
pub open spec fn run_reaches_all(results: Seq<Option<bool>>, machines_created_per_run: u64) -> bool {
    forall|n: int|
        0 < n < results.len() && results[n - 1] == Some(true) ==> #[trigger] created_count(
            results.subrange(0, n),
        ) != machines_created_per_run
}

/// A run that starts with nothing created and may create machines never creates more of them
/// than it may.
pub proof fn run_respects_its_limit(results: Seq<Option<bool>>, machines_created_per_run: u64)
    requires
        machines_created_per_run > 0,
        run_reaches_all(results, machines_created_per_run),
    ensures
        created_count(results) <= machines_created_per_run,
    decreases results.len(),
{
    if results.len() > 0 {
        let before = results.drop_last();
        assert forall|n: int|
            0 < n < before.len() && before[n - 1] == Some(true) implies #[trigger] created_count(
            before.subrange(0, n),
        ) != machines_created_per_run by {
            assert(before.subrange(0, n) =~= results.subrange(0, n));
        }
        run_respects_its_limit(before, machines_created_per_run);
        limit_is_not_reached_early(before, results, machines_created_per_run);
    }
}

proof fn limit_is_not_reached_early(
    before: Seq<Option<bool>>,
    results: Seq<Option<bool>>,
    machines_created_per_run: u64,
)
    requires
        machines_created_per_run > 0,
        results.len() > before.len(),
        before =~= results.subrange(0, before.len() as int),
        run_reaches_all(results, machines_created_per_run),
    ensures
        created_count(before) != machines_created_per_run,
    decreases before.len(),
{
    let n = before.len() as int;
    if n > 0 && before.last() == Some(true) {
        assert(results[n - 1] == Some(true));
        assert(results.subrange(0, n) =~= before);
    } else if n > 0 {
        assert(before.drop_last() =~= results.subrange(0, n - 1));
        limit_is_not_reached_early(before.drop_last(), results, machines_created_per_run);
    }
}

} // verus!
