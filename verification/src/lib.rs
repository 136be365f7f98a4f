//! In-process telemetry for a crawling workload: per-request outcome
//! counters behind a verified lock, periodic snapshot-and-reset reporting,
//! host latency probing and system resource sampling.

pub mod entity;
pub mod histogram;
pub mod laws;
pub mod resources;
pub mod stats;

use vstd::prelude::*;

verus! {

/// Port used to probe configured hosts when none is given.
pub fn default_host_test_port() -> (r: u16)
    ensures
        r == 443,
{
    443
}

} // verus!
