use vstd::prelude::*;

use crate::alerts::engine::{
    alerts_needed, critical_metrics_of, decide, evaluate, get_critical_metrics, AlertContext,
    AlertContextView, AlertDecision, AlertDecisionView, CriticalMetric,
};
use crate::domain::health::{DeviceHealth, DeviceHealthView};
use crate::domain::state::{ServerState, ServerStateView};
use crate::domain::status::HealthStatus;
use crate::domain::time::{whole_seconds_between, Timestamp};
use crate::infrastructure::config::AlertConfig;
use crate::system::current_time;
use crate::text::{i128_to_decimal, int_decimal};
use crate::validation::engine::{determine_status, status_of, ThresholdChecks};

verus! {

/// Milliseconds since the Unix epoch of `t`, as `timestamp_millis` counts
/// them.
pub open spec fn millis_of(t: Timestamp) -> int {
    t.secs * 1000 + t.nanos / 1_000_000
}

/// The MQTT client id of a session opened at `now`: the configured id, an
/// underscore, and the time in milliseconds, so that reconnections never
/// reuse an id.
pub fn client_id_at(base: &str, now: Timestamp) -> (r: String)
    ensures
        r@ == base@ + "_"@ + int_decimal(millis_of(now)),
{
    let millis: i128 = now.secs as i128 * 1000 + (now.nanos / 1_000_000) as i128;
    let mut id = base.to_owned();
    id.append("_");
    id.append(i128_to_decimal(millis).as_str());
    id
}

/// The MQTT client id of a session opened now.
pub fn session_client_id(base: &str) -> (r: String)
    ensures
        exists|now: Timestamp| r@ == base@ + "_"@ + #[trigger] int_decimal(millis_of(now)),
{
    let now = current_time();
    client_id_at(base, now)
}

/// The alert-machine input for a health report: the server's alert state
/// and name before the report (no alert and the id as name for a server not
/// seen before), the status the report earned and its critical readings.
pub open spec fn report_context(
    server_id: Seq<char>,
    previous: Option<ServerStateView>,
    status: HealthStatus,
    critical_metrics: Seq<CriticalMetric>,
    config: AlertConfig,
) -> AlertContextView {
    match previous {
        Some(p) => AlertContextView {
            server_id,
            server_name: p.name,
            old_alert_active: p.alert_active,
            old_recovery_since: p.recovery_since,
            old_last_alert_at: p.last_alert_at,
            new_status: status,
            critical_metrics,
            alert_config: config,
        },
        None => AlertContextView {
            server_id,
            server_name: server_id,
            old_alert_active: false,
            old_recovery_since: None,
            old_last_alert_at: None,
            new_status: status,
            critical_metrics,
            alert_config: config,
        },
    }
}

/// The new state of a server after a health report and what the alert state
/// machine decided for it.
pub struct HealthReportOutcome {
    pub state: ServerState,
    pub decision: AlertDecision,
}

/// What a health report does: the server keeps its name (its id for a new
/// server), takes the report and the status it earned, and for some time and
/// fresh ids takes the alert state that the alert state machine decides.
pub open spec fn report_outcome(
    server_id: Seq<char>,
    health: DeviceHealthView,
    checks: ThresholdChecks,
    previous: Option<ServerStateView>,
    config: AlertConfig,
    state: ServerStateView,
    decision: AlertDecisionView,
) -> bool {
    let ctx = report_context(
        server_id,
        previous,
        status_of(checks),
        critical_metrics_of(health, checks.critical),
        config,
    );
    &&& exists|t: Timestamp, ids: Seq<u128>|
        ids.len() == alerts_needed(ctx) && #[trigger] decide(ctx, t, ids) == decision
    &&& state == ServerStateView {
        server_id,
        name: ctx.server_name,
        health,
        status: status_of(checks),
        alert_active: decision.new_alert_active,
        recovery_since: decision.new_recovery_since,
        last_alert_at: decision.new_last_alert_at,
    }
}

/// Handles the health report `health` of server `server_id`, given how it
/// compares with the thresholds and the server's previous state, if any.
pub fn apply_health_report(
    server_id: String,
    health: DeviceHealth,
    checks: &ThresholdChecks,
    previous: Option<&ServerState>,
    alert_config: &AlertConfig,
) -> (r: HealthReportOutcome)
    ensures
        report_outcome(
            server_id@,
            health@,
            *checks,
            match previous {
                Some(p) => Some(p@),
                None => None,
            },
            *alert_config,
            r.state@,
            r.decision@,
        ),
        previous matches Some(p) ==> r.state.name@ == p.name@ && (exists|
            t: Timestamp,
            ids: Seq<u128>,
        |
            #[trigger] decide(
                AlertContextView {
                    server_id: server_id@,
                    server_name: p.name@,
                    old_alert_active: p.alert_active,
                    old_recovery_since: p.recovery_since,
                    old_last_alert_at: p.last_alert_at,
                    new_status: status_of(*checks),
                    critical_metrics: critical_metrics_of(health@, checks.critical),
                    alert_config: *alert_config,
                },
                t,
                ids,
            ) == r.decision@),
        previous is None ==> r.state.name@ == server_id@,
        forall|i: int, j: int|
            0 <= i < j < r.decision@.alerts.len() ==> r.decision@.alerts[i].id
                != r.decision@.alerts[j].id,
{
    let new_status = determine_status(checks);
    let critical_metrics = get_critical_metrics(&health, &checks.critical);
    let (old_alert_active, old_recovery_since, old_last_alert_at, old_name) = match previous {
        Some(p) => (p.alert_active, p.recovery_since, p.last_alert_at, p.name.clone()),
        None => (false, None, None, server_id.clone()),
    };
    let decision = {
        let ctx = AlertContext {
            server_id: server_id.as_str(),
            server_name: old_name.as_str(),
            old_alert_active,
            old_recovery_since,
            old_last_alert_at,
            new_status: &new_status,
            critical_metrics: critical_metrics.as_slice(),
            alert_config,
        };
        assert(ctx@ == report_context(
            server_id@,
            match previous {
                Some(p) => Some(p@),
                None => None,
            },
            status_of(*checks),
            critical_metrics_of(health@, checks.critical),
            *alert_config,
        ));
        evaluate(ctx)
    };
    let state = ServerState {
        server_id,
        name: old_name,
        health,
        status: new_status,
        alert_active: decision.new_alert_active,
        recovery_since: decision.new_recovery_since,
        last_alert_at: decision.new_last_alert_at,
    };
    HealthReportOutcome { state, decision }
}

/// Quiet-period law for a known server: when a server whose alert is active
/// and whose quiet period began at `quiet_start` sends a report with no
/// critical reading, no alert is raised and, at the time `t` of the report,
/// the alert is resolved exactly when `recovery_seconds` whole seconds have
/// passed since `quiet_start`; otherwise the alert stays active and the quiet
/// period keeps its start (a later report does not restart it).
pub proof fn lemma_known_server_quiet_period(
    server_id: Seq<char>,
    health: DeviceHealthView,
    checks: ThresholdChecks,
    previous: ServerStateView,
    quiet_start: Timestamp,
    config: AlertConfig,
    state: ServerStateView,
    decision: AlertDecisionView,
)
    requires
        report_outcome(server_id, health, checks, Some(previous), config, state, decision),
        !checks.critical.cpu && !checks.critical.memory && !checks.critical.temp,
        previous.alert_active,
        previous.recovery_since == Some(quiet_start),
    ensures
        decision.alerts.len() == 0,
        state.name == previous.name,
        exists|t: Timestamp|
            (decision.recovered <==> #[trigger] whole_seconds_between(t, quiet_start)
                >= config.recovery_seconds) && (decision.recovered ==> !state.alert_active
                && state.recovery_since is None) && (!decision.recovered ==> state.alert_active
                && state.recovery_since == Some(quiet_start)),
{
    let ctx = report_context(
        server_id,
        Some(previous),
        status_of(checks),
        critical_metrics_of(health, checks.critical),
        config,
    );
    let (t, ids) = choose|t: Timestamp, ids: Seq<u128>|
        ids.len() == alerts_needed(ctx) && #[trigger] decide(ctx, t, ids) == decision;
    assert(decide(ctx, t, ids) == decision);
    assert(whole_seconds_between(t, quiet_start) >= config.recovery_seconds
        <==> decision.recovered);
}

/// A report that crosses a critical threshold, for a server without an
/// active alert, raises one alert per critical reading (at least one) and
/// leaves the server critical with its alert active.
pub proof fn lemma_critical_report_raises_alerts(
    server_id: Seq<char>,
    health: DeviceHealthView,
    checks: ThresholdChecks,
    previous: Option<ServerStateView>,
    config: AlertConfig,
    state: ServerStateView,
    decision: AlertDecisionView,
)
    requires
        report_outcome(server_id, health, checks, previous, config, state, decision),
        checks.critical.any(),
        previous matches Some(p) ==> !p.alert_active,
    ensures
        decision.alerts.len() == critical_metrics_of(health, checks.critical).len(),
        decision.alerts.len() > 0,
        state.status == HealthStatus::Critical,
        state.alert_active,
        !decision.recovered,
{
    let ctx = report_context(
        server_id,
        previous,
        status_of(checks),
        critical_metrics_of(health, checks.critical),
        config,
    );
    let (t, ids) = choose|t: Timestamp, ids: Seq<u128>|
        ids.len() == alerts_needed(ctx) && #[trigger] decide(ctx, t, ids) == decision;
    assert(decide(ctx, t, ids) == decision);
}

} // verus!
