pub mod engine;

use vstd::prelude::*;

use crate::device_health::DeviceHealth;

verus! {

/// How one report of the first telemetry format compares with the fixed
/// limits of that format: CPU above 80 %, memory above 80 %, temperature
/// above 75 °C, inbound or outbound traffic above 100.
#[derive(Clone, Copy, Debug, PartialEq, Eq, Structural)]
pub struct OverloadChecks {
    pub cpu_overloaded: bool,
    pub memory_overloaded: bool,
    pub temperature_critical: bool,
    pub network_in_over: bool,
    pub network_out_over: bool,
}

/// The network is congested when either direction is over its limit.
pub fn is_network_congested(checks: &OverloadChecks) -> (r: bool)
    ensures
        r == (checks.network_in_over || checks.network_out_over),
{
    checks.network_in_over || checks.network_out_over
}

/// A device is unhealthy when any of its limits is exceeded.
pub fn is_device_unhealthy(checks: &OverloadChecks) -> (r: bool)
    ensures
        r == is_device_unhealthy_spec(*checks),
{
    checks.cpu_overloaded || checks.memory_overloaded || checks.temperature_critical
        || is_network_congested(checks)
}

/// Sets the status of a report of the first format from its checks:
/// `unhealthy` when any limit is exceeded, `healthy` otherwise; the readings
/// are left as they are.
pub fn apply_health_validation(health: &mut DeviceHealth, checks: &OverloadChecks)
    ensures
        final(health).status@ == if is_device_unhealthy_spec(*checks) {
            "unhealthy"@
        } else {
            "healthy"@
        },
        final(health).timestamp == old(health).timestamp,
        final(health).cpu == old(health).cpu,
        final(health).temp == old(health).temp,
        final(health).memory == old(health).memory,
        final(health).network == old(health).network,
        final(health).uptime == old(health).uptime,
{
    if is_device_unhealthy(checks) {
        health.mark_unhealthy();
    } else {
        health.status = "healthy".to_owned();
    }
}

/// Some limit is exceeded.
pub open spec fn is_device_unhealthy_spec(checks: OverloadChecks) -> bool {
    checks.cpu_overloaded || checks.memory_overloaded || checks.temperature_critical
        || checks.network_in_over || checks.network_out_over
}

} // verus!
