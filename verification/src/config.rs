//! Runtime configuration consumed by the core.
//!
//! Reading the process environment is the boundary layer's business; the core
//! only holds the resulting snapshot.

use vstd::prelude::*;

verus! {

/// Snapshot of configuration values consumed by the core.
#[derive(Clone, Debug)]
pub struct AppCfg {
    /// Root directory for repositories kept on disk.
    pub data_root: String,
    /// Deployment region marker.
    pub region: String,
    /// Logging verbosity.
    pub log_level: u8,
}

impl AppCfg {
    /// Create a configuration snapshot from already-resolved values.
    pub fn new(data_root: String, region: String, log_level: u8) -> (r: Self)
        ensures
            r.data_root@ == data_root@,
            r.region@ == region@,
            r.log_level == log_level,
    {
        AppCfg { data_root, region, log_level }
    }
}

} // verus!
