use vstd::prelude::*;

verus! {

/// Overall health of a monitored server.
#[derive(Clone, Copy, Debug, PartialEq, Eq, Structural)]
pub enum HealthStatus {
    Healthy,
    Warning,
    Critical,
    Offline,
}

impl Default for HealthStatus {
    /// A server nobody has heard from yet is offline.
    fn default() -> (r: Self)
        ensures
            r == HealthStatus::Offline,
    {
        HealthStatus::Offline
    }
}

} // verus!
