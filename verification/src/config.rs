use vstd::prelude::*;

verus! {

/// How often the latest definition is published, and how failures are retried.
#[derive(Clone, Copy, Debug)]
pub struct LatestDefinitionUpdaterConfig {
    pub update_interval_seconds: u64,
    pub retry_count: u32,
    pub retry_interval_seconds: u64,
}

} // verus!
