use vstd::prelude::*;

use crate::alerts::engine::{
    alerts_needed, critical_metrics_of, decide, evaluate, get_critical_metrics, AlertContext,
    AlertContextView, AlertDecision, AlertDecisionView, CriticalMetric,
};
use crate::domain::state::{ServerState, ServerStateView};
use crate::domain::status::HealthStatus;
use crate::domain::time::Timestamp;
use crate::infrastructure::config::AlertConfig;
use crate::validation::engine::MetricFlags;

verus! {

/// Seconds without a report after which a server counts as offline.
pub const OFFLINE_THRESHOLD_SECS: i64 = 10;

/// Seconds between two sweeps of the offline checker.
pub const CHECK_INTERVAL_SECS: u64 = 5;

/// The server has not reported for more than the offline threshold at
/// `now` (in seconds since the Unix epoch) and is not yet marked offline.
pub open spec fn goes_offline(state: ServerStateView, now: i64) -> bool {
    now - state.health.timestamp > OFFLINE_THRESHOLD_SECS && state.status != HealthStatus::Offline
}

/// The alert-machine input for a server that has just gone offline.
pub open spec fn offline_context(
    state: ServerStateView,
    critical_metrics: Seq<CriticalMetric>,
    config: AlertConfig,
) -> AlertContextView {
    AlertContextView {
        server_id: state.server_id,
        server_name: state.name,
        old_alert_active: state.alert_active,
        old_recovery_since: state.recovery_since,
        old_last_alert_at: state.last_alert_at,
        new_status: HealthStatus::Offline,
        critical_metrics,
        alert_config: config,
    }
}

/// `state` marked offline, with the alert state a decision left.
pub open spec fn marked_offline(
    state: ServerStateView,
    active: bool,
    recovery_since: Option<Timestamp>,
    last_alert_at: Option<Timestamp>,
) -> ServerStateView {
    ServerStateView {
        status: HealthStatus::Offline,
        alert_active: active,
        recovery_since,
        last_alert_at,
        ..state
    }
}

/// What a sweep does to a server that has gone offline: for some time and
/// fresh ids, `decision` is what the alert state machine decides for an
/// offline report of it, and `after` is the server marked offline with the
/// alert state that decision left.
pub open spec fn swept_offline(
    before: ServerStateView,
    after: ServerStateView,
    decision: AlertDecisionView,
    critical: MetricFlags,
    config: AlertConfig,
) -> bool {
    let ctx = offline_context(before, critical_metrics_of(before.health, critical), config);
    &&& exists|t: Timestamp, ids: Seq<u128>|
        ids.len() == alerts_needed(ctx) && #[trigger] decide(ctx, t, ids) == decision
    &&& after == marked_offline(
        before,
        decision.new_alert_active,
        decision.new_recovery_since,
        decision.new_last_alert_at,
    )
}

/// Whether the server has gone offline at `now`.
pub fn is_stale(state: &ServerState, now: i64) -> (r: bool)
    ensures
        r == goes_offline(state@, now),
{
    let elapsed: i128 = now as i128 - state.health.timestamp as i128;
    elapsed > OFFLINE_THRESHOLD_SECS as i128 && state.status != HealthStatus::Offline
}

/// One sweep step for one server at `now` (seconds since the Unix epoch).
/// A server that has gone offline is marked so and fed to the alert state
/// machine as an offline report; the decision is returned. `critical` are the
/// server's last critical-threshold checks. Any other server is left as it
/// was and `None` is returned.
pub fn check_offline(
    state: &mut ServerState,
    now: i64,
    critical: &MetricFlags,
    alert_config: &AlertConfig,
) -> (r: Option<AlertDecision>)
    ensures
        goes_offline(old(state)@, now) ==> (r matches Some(d) && swept_offline(
            old(state)@,
            final(state)@,
            d@,
            *critical,
            *alert_config,
        )),
        !goes_offline(old(state)@, now) ==> r is None && final(state)@ == old(state)@,
        r matches Some(d) ==> forall|i: int, j: int|
            0 <= i < j < d@.alerts.len() ==> d@.alerts[i].id != d@.alerts[j].id,
{
    if !is_stale(state, now) {
        return None;
    }
    let critical_metrics = get_critical_metrics(&state.health, critical);
    let offline = HealthStatus::Offline;
    let decision = {
        let ctx = AlertContext {
            server_id: state.server_id.as_str(),
            server_name: state.name.as_str(),
            old_alert_active: state.alert_active,
            old_recovery_since: state.recovery_since,
            old_last_alert_at: state.last_alert_at,
            new_status: &offline,
            critical_metrics: critical_metrics.as_slice(),
            alert_config,
        };
        assert(ctx@ == offline_context(
            state@,
            critical_metrics_of(state@.health, *critical),
            *alert_config,
        ));
        evaluate(ctx)
    };
    state.status = HealthStatus::Offline;
    state.alert_active = decision.new_alert_active;
    state.recovery_since = decision.new_recovery_since;
    state.last_alert_at = decision.new_last_alert_at;
    Some(decision)
}

/// A server marked offline by a sweep is not marked again by a later one:
/// an offline server never goes offline.
pub proof fn lemma_offline_once(state: ServerStateView, now: i64)
    requires
        state.status == HealthStatus::Offline,
    ensures
        !goes_offline(state, now),
{
}

/// A server that reported within the last `OFFLINE_THRESHOLD_SECS` seconds
/// is never marked offline.
pub proof fn lemma_recent_report_stays_online(state: ServerStateView, now: i64)
    requires
        now - state.health.timestamp <= OFFLINE_THRESHOLD_SECS,
    ensures
        !goes_offline(state, now),
{
}

} // verus!
