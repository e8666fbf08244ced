//! What one run over the site counts.
use vstd::prelude::*;

verus! {

/// The counts of one run over the site.
#[derive(Debug)]
pub struct SiteExplorationMetrics {
    pub endpoint_explorations: usize,
    pub endpoint_explorations_success: usize,
    /// How many explorations failed, by the type of failure.
    pub endpoint_explorations_failures_by_type: Vec<(String, usize)>,
    pub created_machines: usize,
}

impl SiteExplorationMetrics {
    /// The counts of a run that has just started.
    pub fn new() -> (r: Self)
        ensures
            r.endpoint_explorations == 0,
            r.endpoint_explorations_success == 0,
            r.endpoint_explorations_failures_by_type@ == Seq::<(String, usize)>::empty(),
            r.created_machines == 0,
    {
        SiteExplorationMetrics {
            endpoint_explorations: 0,
            endpoint_explorations_success: 0,
            endpoint_explorations_failures_by_type: Vec::new(),
            created_machines: 0,
        }
    }
}

} // verus!
