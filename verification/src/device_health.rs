//! The first telemetry format: a server id beside a report with a text
//! timestamp and a text status.
use vstd::prelude::*;

verus! {

/// Network throughput; each field holds the bit pattern of an `f32` reading.
#[derive(Clone, Copy, Debug, PartialEq, Eq, Structural)]
pub struct NetworkStats {
    pub in_value: u32,
    pub out_value: u32,
}

/// One report; `cpu`, `temp` and `memory` hold the bit patterns of `f32`
/// readings.
#[derive(Clone, Debug)]
pub struct DeviceHealth {
    pub timestamp: String,
    pub cpu: u32,
    pub temp: u32,
    pub memory: u32,
    pub network: NetworkStats,
    pub uptime: u64,
    pub status: String,
}

/// A report together with the id of the server that sent it.
#[derive(Clone, Debug)]
pub struct ServerHealth {
    pub server_id: String,
    pub health: DeviceHealth,
}

impl DeviceHealth {
    /// Overrides the reported status with `unhealthy`, leaving the readings
    /// as they are.
    pub fn mark_unhealthy(&mut self)
        ensures
            final(self).status@ == "unhealthy"@,
            final(self).timestamp == old(self).timestamp,
            final(self).cpu == old(self).cpu,
            final(self).temp == old(self).temp,
            final(self).memory == old(self).memory,
            final(self).network == old(self).network,
            final(self).uptime == old(self).uptime,
    {
        self.status = "unhealthy".to_owned();
    }
}

} // verus!
