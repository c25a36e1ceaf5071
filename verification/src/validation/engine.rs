use vstd::prelude::*;

use crate::domain::status::HealthStatus;

verus! {

/// For each of CPU, memory and temperature: whether the reading is at or
/// above one threshold (`reading >= threshold`).
#[derive(Clone, Copy, Debug, PartialEq, Eq, Structural)]
pub struct MetricFlags {
    pub cpu: bool,
    pub memory: bool,
    pub temp: bool,
}

/// How a report compares with the configured thresholds: `warning` against
/// the warning thresholds, `critical` against the critical ones.
#[derive(Clone, Copy, Debug, PartialEq, Eq, Structural)]
pub struct ThresholdChecks {
    pub warning: MetricFlags,
    pub critical: MetricFlags,
}

impl MetricFlags {
    /// At least one reading reached its threshold.
    pub open spec fn any(self) -> bool {
        self.cpu || self.memory || self.temp
    }
}

/// The status a report earns: critical when any reading reached its critical
/// threshold, else warning when any reached its warning threshold, else
/// healthy.
pub open spec fn status_of(checks: ThresholdChecks) -> HealthStatus {
    if checks.critical.any() {
        HealthStatus::Critical
    } else if checks.warning.any() {
        HealthStatus::Warning
    } else {
        HealthStatus::Healthy
    }
}

/// Classifies a report by its threshold checks.
pub fn determine_status(checks: &ThresholdChecks) -> (r: HealthStatus)
    ensures
        r == status_of(*checks),
        r != HealthStatus::Offline,
        (checks.critical.cpu || checks.critical.memory || checks.critical.temp) ==> r
            == HealthStatus::Critical,
        !(checks.critical.cpu || checks.critical.memory || checks.critical.temp) && (
        checks.warning.cpu || checks.warning.memory || checks.warning.temp) ==> r
            == HealthStatus::Warning,
        !(checks.critical.cpu || checks.critical.memory || checks.critical.temp) && !(
        checks.warning.cpu || checks.warning.memory || checks.warning.temp) ==> r
            == HealthStatus::Healthy,
{
    if is_critical(checks) {
        return HealthStatus::Critical;
    }
    if is_warning(checks) {
        return HealthStatus::Warning;
    }
    HealthStatus::Healthy
}

/// Classification law: any reading at its critical threshold makes a report
/// critical; otherwise any reading at its warning threshold (CPU, memory or
/// temperature alike) makes it a warning; otherwise it is healthy. No report
/// is classified offline.
pub proof fn lemma_status_classification(checks: ThresholdChecks)
    ensures
        (checks.critical.cpu || checks.critical.memory || checks.critical.temp) <==> status_of(
            checks,
        ) == HealthStatus::Critical,
        (!checks.critical.cpu && !checks.critical.memory && !checks.critical.temp && (
        checks.warning.cpu || checks.warning.memory || checks.warning.temp)) <==> status_of(
            checks,
        ) == HealthStatus::Warning,
        (!checks.critical.cpu && !checks.critical.memory && !checks.critical.temp
            && !checks.warning.cpu && !checks.warning.memory && !checks.warning.temp) <==> status_of(
            checks,
        ) == HealthStatus::Healthy,
        status_of(checks) != HealthStatus::Offline,
{
}

fn is_critical(checks: &ThresholdChecks) -> (r: bool)
    ensures
        r == checks.critical.any(),
{
    checks.critical.cpu || checks.critical.memory || checks.critical.temp
}

fn is_warning(checks: &ThresholdChecks) -> (r: bool)
    ensures
        r == checks.warning.any(),
{
    checks.warning.cpu || checks.warning.memory || checks.warning.temp
}

} // verus!
