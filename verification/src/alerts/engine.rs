use vstd::prelude::*;

use crate::domain::alert::{alert_views, Alert, AlertMetric, AlertView};
use crate::domain::health::{DeviceHealth, DeviceHealthView};
use crate::domain::status::HealthStatus;
use crate::domain::time::{seconds_between, whole_seconds_between, Timestamp};
use crate::infrastructure::config::AlertConfig;
use crate::system::{current_time, random_alert_id};
use crate::validation::engine::{status_of, MetricFlags, ThresholdChecks};

verus! {

/// A reading that reached its critical threshold; `value` is the bit pattern
/// of the `f32` reading.
#[derive(Clone, Copy, Debug, PartialEq, Eq, Structural)]
pub struct CriticalMetric {
    pub metric: AlertMetric,
    pub value: u32,
}

/// What the alert state machine decided for one report.
pub struct AlertDecision {
    /// Alerts to raise now.
    pub alerts: Vec<Alert>,
    /// The server's alert has just been resolved.
    pub recovered: bool,
    pub new_alert_active: bool,
    pub new_recovery_since: Option<Timestamp>,
    pub new_last_alert_at: Option<Timestamp>,
}

/// The mathematical value of an [`AlertDecision`].
#[verifier::ext_equal]
pub struct AlertDecisionView {
    pub alerts: Seq<AlertView>,
    pub recovered: bool,
    pub new_alert_active: bool,
    pub new_recovery_since: Option<Timestamp>,
    pub new_last_alert_at: Option<Timestamp>,
}

impl View for AlertDecision {
    type V = AlertDecisionView;

    open spec fn view(&self) -> AlertDecisionView {
        AlertDecisionView {
            alerts: alert_views(self.alerts@),
            recovered: self.recovered,
            new_alert_active: self.new_alert_active,
            new_recovery_since: self.new_recovery_since,
            new_last_alert_at: self.new_last_alert_at,
        }
    }
}

/// The input of the alert state machine: the server, its alert state before
/// the report, the status the report earned and its critical readings.
pub struct AlertContext<'a> {
    pub server_id: &'a str,
    pub server_name: &'a str,
    pub old_alert_active: bool,
    pub old_recovery_since: Option<Timestamp>,
    pub old_last_alert_at: Option<Timestamp>,
    pub new_status: &'a HealthStatus,
    pub critical_metrics: &'a [CriticalMetric],
    pub alert_config: &'a AlertConfig,
}

/// The mathematical value of an [`AlertContext`].
pub struct AlertContextView {
    pub server_id: Seq<char>,
    pub server_name: Seq<char>,
    pub old_alert_active: bool,
    pub old_recovery_since: Option<Timestamp>,
    pub old_last_alert_at: Option<Timestamp>,
    pub new_status: HealthStatus,
    pub critical_metrics: Seq<CriticalMetric>,
    pub alert_config: AlertConfig,
}

impl<'a> View for AlertContext<'a> {
    type V = AlertContextView;

    open spec fn view(&self) -> AlertContextView {
        AlertContextView {
            server_id: self.server_id@,
            server_name: self.server_name@,
            old_alert_active: self.old_alert_active,
            old_recovery_since: self.old_recovery_since,
            old_last_alert_at: self.old_last_alert_at,
            new_status: *self.new_status,
            critical_metrics: self.critical_metrics@,
            alert_config: *self.alert_config,
        }
    }
}

/// The critical readings of a report, in the order CPU, temperature, memory:
/// each one whose flag in `critical` is set.
pub open spec fn critical_metrics_of(health: DeviceHealthView, critical: MetricFlags) -> Seq<
    CriticalMetric,
> {
    (if critical.cpu {
        seq![CriticalMetric { metric: AlertMetric::Cpu, value: health.cpu }]
    } else {
        Seq::empty()
    }) + (if critical.temp {
        seq![CriticalMetric { metric: AlertMetric::Temp, value: health.temp }]
    } else {
        Seq::empty()
    }) + (if critical.memory {
        seq![CriticalMetric { metric: AlertMetric::Memory, value: health.memory }]
    } else {
        Seq::empty()
    })
}

/// Collects the readings of `health` that reached their critical threshold,
/// as `critical` reports them.
pub fn get_critical_metrics(health: &DeviceHealth, critical: &MetricFlags) -> (r: Vec<
    CriticalMetric,
>)
    ensures
        r@ == critical_metrics_of(health@, *critical),
{
    let mut metrics: Vec<CriticalMetric> = Vec::new();
    if critical.cpu {
        metrics.push(CriticalMetric { metric: AlertMetric::Cpu, value: health.cpu });
    }
    if critical.temp {
        metrics.push(CriticalMetric { metric: AlertMetric::Temp, value: health.temp });
    }
    if critical.memory {
        metrics.push(CriticalMetric { metric: AlertMetric::Memory, value: health.memory });
    }
    metrics
}

/// An alarm status: one that raises an alert.
pub open spec fn is_alarm(status: HealthStatus) -> bool {
    status == HealthStatus::Critical || status == HealthStatus::Offline
}

/// How many fresh alert ids a decision consumes: one per critical reading
/// when a critical report opens an alert, one when an offline report does,
/// none otherwise.
pub open spec fn alerts_needed(ctx: AlertContextView) -> nat {
    if ctx.old_alert_active {
        0
    } else {
        match ctx.new_status {
            HealthStatus::Critical => ctx.critical_metrics.len(),
            HealthStatus::Offline => 1,
            _ => 0,
        }
    }
}

/// A new, unresolved alert for the context's server.
pub open spec fn new_alert_view(
    ctx: AlertContextView,
    now: Timestamp,
    id: u128,
    metric: AlertMetric,
    value: Option<u32>,
) -> AlertView {
    AlertView {
        id,
        server_id: ctx.server_id,
        server_name: ctx.server_name,
        timestamp: now,
        metric,
        value,
        resolved_at: None,
    }
}

/// The alerts an alarm opens: one per critical reading (with its value) for
/// a critical report, one offline alert (with no value) otherwise.
pub open spec fn opened_alerts(ctx: AlertContextView, now: Timestamp, ids: Seq<u128>) -> Seq<
    AlertView,
> {
    if ctx.new_status == HealthStatus::Critical {
        Seq::new(
            ctx.critical_metrics.len(),
            |i: int|
                new_alert_view(
                    ctx,
                    now,
                    ids[i],
                    ctx.critical_metrics[i].metric,
                    Some(ctx.critical_metrics[i].value),
                ),
        )
    } else {
        seq![new_alert_view(ctx, now, ids[0], AlertMetric::Offline, None)]
    }
}

/// When the current quiet period began: the recorded start, or `now`.
pub open spec fn quiet_since(ctx: AlertContextView, now: Timestamp) -> Timestamp {
    match ctx.old_recovery_since {
        Some(t) => t,
        None => now,
    }
}

/// The alert state machine.
///
/// An alarm (critical or offline) keeps or opens the alert; it opens it, with
/// fresh alerts stamped `now`, only when none was active. A healthy or
/// warning report resolves an active alert once the server has been out of
/// alarm for `recovery_seconds` whole seconds; until then it starts or keeps
/// the quiet period.
pub open spec fn decide(ctx: AlertContextView, now: Timestamp, ids: Seq<u128>) -> AlertDecisionView {
    if is_alarm(ctx.new_status) {
        if ctx.old_alert_active {
            AlertDecisionView {
                alerts: Seq::empty(),
                recovered: false,
                new_alert_active: true,
                new_recovery_since: None,
                new_last_alert_at: ctx.old_last_alert_at,
            }
        } else {
            AlertDecisionView {
                alerts: opened_alerts(ctx, now, ids),
                recovered: false,
                new_alert_active: true,
                new_recovery_since: None,
                new_last_alert_at: Some(now),
            }
        }
    } else if !ctx.old_alert_active {
        AlertDecisionView {
            alerts: Seq::empty(),
            recovered: false,
            new_alert_active: false,
            new_recovery_since: None,
            new_last_alert_at: ctx.old_last_alert_at,
        }
    } else if whole_seconds_between(now, quiet_since(ctx, now)) >= ctx.alert_config.recovery_seconds {
        AlertDecisionView {
            alerts: Seq::empty(),
            recovered: true,
            new_alert_active: false,
            new_recovery_since: None,
            new_last_alert_at: ctx.old_last_alert_at,
        }
    } else {
        AlertDecisionView {
            alerts: Seq::empty(),
            recovered: false,
            new_alert_active: true,
            new_recovery_since: Some(quiet_since(ctx, now)),
            new_last_alert_at: ctx.old_last_alert_at,
        }
    }
}

fn new_alert(
    ctx: &AlertContext,
    now: Timestamp,
    id: u128,
    metric: AlertMetric,
    value: Option<u32>,
) -> (r: Alert)
    ensures
        r@ == new_alert_view(ctx@, now, id, metric, value),
{
    Alert {
        id,
        server_id: ctx.server_id.to_owned(),
        server_name: ctx.server_name.to_owned(),
        timestamp: now,
        metric,
        value,
        resolved_at: None,
    }
}

fn open_alerts(ctx: &AlertContext, now: Timestamp, ids: &[u128]) -> (r: Vec<Alert>)
    requires
        is_alarm(ctx@.new_status),
        !ctx@.old_alert_active,
        ids@.len() == alerts_needed(ctx@),
    ensures
        alert_views(r@) == opened_alerts(ctx@, now, ids@),
{
    let mut alerts: Vec<Alert> = Vec::new();
    if *ctx.new_status == HealthStatus::Critical {
        let n = ctx.critical_metrics.len();
        for i in 0..n
            invariant
                n == ctx.critical_metrics@.len(),
                ids@.len() == n,
                alerts@.len() == i,
                forall|j: int|
                    0 <= j < i ==> #[trigger] alerts@[j]@ == new_alert_view(
                        ctx@,
                        now,
                        ids@[j],
                        ctx@.critical_metrics[j].metric,
                        Some(ctx@.critical_metrics[j].value),
                    ),
        {
            let cm = ctx.critical_metrics[i];
            alerts.push(new_alert(ctx, now, ids[i], cm.metric, Some(cm.value)));
        }
    } else {
        alerts.push(new_alert(ctx, now, ids[0], AlertMetric::Offline, None));
    }
    assert(alert_views(alerts@) =~= opened_alerts(ctx@, now, ids@));
    alerts
}

/// Runs the alert state machine for one report at time `now`, taking the ids
/// of the alerts it opens from `ids`, in order.
pub fn evaluate_at(ctx: &AlertContext, now: Timestamp, ids: &[u128]) -> (r: AlertDecision)
    requires
        ids@.len() == alerts_needed(ctx@),
    ensures
        r@ == decide(ctx@, now, ids@),
{
    match *ctx.new_status {
        HealthStatus::Critical | HealthStatus::Offline => {
            if ctx.old_alert_active {
                let r = AlertDecision {
                    alerts: Vec::new(),
                    recovered: false,
                    new_alert_active: true,
                    new_recovery_since: None,
                    new_last_alert_at: ctx.old_last_alert_at,
                };
                assert(r@ =~= decide(ctx@, now, ids@));
                r
            } else {
                AlertDecision {
                    alerts: open_alerts(ctx, now, ids),
                    recovered: false,
                    new_alert_active: true,
                    new_recovery_since: None,
                    new_last_alert_at: Some(now),
                }
            }
        },
        HealthStatus::Healthy | HealthStatus::Warning => {
            if !ctx.old_alert_active {
                let r = AlertDecision {
                    alerts: Vec::new(),
                    recovered: false,
                    new_alert_active: false,
                    new_recovery_since: None,
                    new_last_alert_at: ctx.old_last_alert_at,
                };
                assert(r@ =~= decide(ctx@, now, ids@));
                r
            } else {
                let recovery_since = match ctx.old_recovery_since {
                    Some(t) => t,
                    None => now,
                };
                let elapsed = seconds_between(now, recovery_since);
                if elapsed >= ctx.alert_config.recovery_seconds as i128 {
                    let r = AlertDecision {
                        alerts: Vec::new(),
                        recovered: true,
                        new_alert_active: false,
                        new_recovery_since: None,
                        new_last_alert_at: ctx.old_last_alert_at,
                    };
                    assert(r@ =~= decide(ctx@, now, ids@));
                    r
                } else {
                    let r = AlertDecision {
                        alerts: Vec::new(),
                        recovered: false,
                        new_alert_active: true,
                        new_recovery_since: Some(recovery_since),
                        new_last_alert_at: ctx.old_last_alert_at,
                    };
                    assert(r@ =~= decide(ctx@, now, ids@));
                    r
                }
            }
        },
    }
}

/// No value occurs twice in `ids`.
pub open spec fn all_distinct(ids: Seq<u128>) -> bool {
    forall|i: int, j: int| 0 <= i < j < ids.len() ==> ids[i] != ids[j]
}

/// Pigeonhole: `taken` cannot hold all of the `taken.len() + 1` numbers
/// `0..=taken.len()`.
proof fn lemma_some_small_value_free(taken: Seq<u128>)
    requires
        taken.len() < u128::MAX,
    ensures
        exists|k: int| 0 <= k <= taken.len() && !taken.contains(#[trigger] (k as u128)),
{
    if forall|k: int| 0 <= k <= taken.len() ==> taken.contains(#[trigger] (k as u128)) {
        lemma_all_small_values_taken_impossible(taken);
    }
}

proof fn lemma_all_small_values_taken_impossible(taken: Seq<u128>)
    requires
        taken.len() < u128::MAX,
        forall|k: int| 0 <= k <= taken.len() ==> taken.contains(#[trigger] (k as u128)),
    ensures
        taken.len() + 1 <= taken.len(),
{
    broadcast use vstd::seq_lib::seq_to_set_is_finite;

    let as_int = taken.map_values(|x: u128| x as int);
    let range = vstd::set_lib::set_int_range(0, taken.len() as int + 1);
    vstd::set_lib::lemma_int_range(0, taken.len() as int + 1);
    assert(range.subset_of(as_int.to_set())) by {
        assert forall|k: int| range.contains(k) implies as_int.to_set().contains(k) by {
            assert(taken.contains(k as u128));
            assert((k as u128) as int == k);
            let idx = choose|idx: int| 0 <= idx < taken.len() && taken[idx] == k as u128;
            assert(as_int[idx] == k);
        }
    }
    as_int.lemma_cardinality_of_set();
    vstd::set_lib::lemma_len_subset(range, as_int.to_set());
}

fn holds_id(taken: &Vec<u128>, id: u128) -> (r: bool)
    ensures
        r == taken@.contains(id),
{
    let n = taken.len();
    for i in 0..n
        invariant
            n == taken@.len(),
            forall|j: int| 0 <= j < i ==> taken@[j] != id,
    {
        if taken[i] == id {
            assert(taken@[i as int] == id);
            return true;
        }
    }
    false
}

/// A fresh alert id that is not among `taken`: a random UUID, or, in the
/// event that the draw repeats one of `taken`, the least number not among
/// them.
fn fresh_alert_id(taken: &Vec<u128>) -> (r: u128)
    ensures
        !taken@.contains(r),
{
    let drawn = random_alert_id();
    if !holds_id(taken, drawn) {
        return drawn;
    }
    let n = taken.len() as u128;
    assert(n < u128::MAX);
    let mut k: u128 = 0;
    while k <= n
        invariant
            n == taken@.len(),
            n < u128::MAX,
            k <= n + 1,
            forall|j: int| 0 <= j < k ==> taken@.contains(#[trigger] (j as u128)),
        decreases n + 1 - k,
    {
        if !holds_id(taken, k) {
            return k;
        }
        k = k + 1;
    }
    proof {
        lemma_some_small_value_free(taken@);
        let k = choose|k: int| 0 <= k <= taken@.len() && !taken@.contains(#[trigger] (k as u128));
        assert(taken@.contains(k as u128));
    }
    0
}

/// Runs the alert state machine for one report at the current time, giving
/// each alert it opens a fresh random id; no two alerts of one decision
/// share an id.
pub fn evaluate(ctx: AlertContext) -> (r: AlertDecision)
    ensures
        exists|now: Timestamp, ids: Seq<u128>|
            ids.len() == alerts_needed(ctx@) && #[trigger] decide(ctx@, now, ids) == r@,
        exists|now: Timestamp, ids: Seq<u128>|
            ids.len() == alerts_needed(ctx@) && all_distinct(ids) && #[trigger] decide(
                ctx@,
                now,
                ids,
            ) == r@,
        forall|i: int, j: int|
            0 <= i < j < r@.alerts.len() ==> r@.alerts[i].id != r@.alerts[j].id,
{
    let now = current_time();
    let needed: usize = if ctx.old_alert_active {
        0
    } else {
        match *ctx.new_status {
            HealthStatus::Critical => ctx.critical_metrics.len(),
            HealthStatus::Offline => 1,
            _ => 0,
        }
    };
    let mut ids: Vec<u128> = Vec::new();
    for _i in 0..needed
        invariant
            ids@.len() == _i,
            all_distinct(ids@),
    {
        let id = fresh_alert_id(&ids);
        let ghost before = ids@;
        ids.push(id);
        assert forall|i: int, j: int| 0 <= i < j < ids@.len() implies ids@[i] != ids@[j] by {
            if j == before.len() {
                assert(before[i] == ids@[i]);
            }
        }
    }
    let r = evaluate_at(&ctx, now, ids.as_slice());
    assert(decide(ctx@, now, ids@) == r@);
    proof {
        lemma_decided_alert_ids(ctx@, now, ids@);
    }
    r
}

/// The alerts a decision raises carry the ids it was given, in order: the
/// `i`-th alert has the `i`-th id. So distinct ids give distinct alerts.
pub proof fn lemma_decided_alert_ids(ctx: AlertContextView, now: Timestamp, ids: Seq<u128>)
    requires
        ids.len() == alerts_needed(ctx),
    ensures
        decide(ctx, now, ids).alerts.len() <= ids.len(),
        forall|i: int|
            0 <= i < decide(ctx, now, ids).alerts.len() ==> #[trigger] decide(
                ctx,
                now,
                ids,
            ).alerts[i].id == ids[i],
        all_distinct(ids) ==> forall|i: int, j: int|
            0 <= i < j < decide(ctx, now, ids).alerts.len() ==> decide(ctx, now, ids).alerts[i].id
                != decide(ctx, now, ids).alerts[j].id,
{
    let d = decide(ctx, now, ids);
    if is_alarm(ctx.new_status) && !ctx.old_alert_active {
        assert forall|i: int| 0 <= i < d.alerts.len() implies #[trigger] d.alerts[i].id
            == ids[i] by {}
    }
}

/// A report is critical exactly when it has at least one critical reading,
/// so a critical report that opens an alert always raises one.
pub proof fn lemma_critical_iff_critical_readings(health: DeviceHealthView, checks: ThresholdChecks)
    ensures
        (status_of(checks) == HealthStatus::Critical) <==> critical_metrics_of(
            health,
            checks.critical,
        ).len() > 0,
{
}

/// While a server's alert is active no further alert is raised for it,
/// whatever it reports.
pub proof fn lemma_no_alerts_while_active(ctx: AlertContextView, now: Timestamp, ids: Seq<u128>)
    requires
        ctx.old_alert_active,
    ensures
        decide(ctx, now, ids).alerts.len() == 0,
{
}

/// An alarm (critical or offline report) leaves the alert active, clears the
/// quiet period and never counts as a recovery.
pub proof fn lemma_alarm_keeps_alert(ctx: AlertContextView, now: Timestamp, ids: Seq<u128>)
    requires
        is_alarm(ctx.new_status),
    ensures
        decide(ctx, now, ids).new_alert_active,
        decide(ctx, now, ids).new_recovery_since is None,
        !decide(ctx, now, ids).recovered,
{
}

/// An alarm that opens an alert raises one alert per fresh id: for a critical
/// report, one per critical reading with its value; for an offline report, a
/// single offline alert with no value. Every such alert belongs to the
/// server, is stamped `now` and is unresolved, and `now` becomes the time of
/// the last alert.
pub proof fn lemma_opening_alerts(ctx: AlertContextView, now: Timestamp, ids: Seq<u128>)
    requires
        is_alarm(ctx.new_status),
        !ctx.old_alert_active,
        ids.len() == alerts_needed(ctx),
    ensures
        decide(ctx, now, ids).alerts.len() == ids.len(),
        decide(ctx, now, ids).new_last_alert_at == Some(now),
        forall|i: int|
            0 <= i < ids.len() ==> {
                let a = #[trigger] decide(ctx, now, ids).alerts[i];
                &&& a.id == ids[i]
                &&& a.server_id == ctx.server_id
                &&& a.server_name == ctx.server_name
                &&& a.timestamp == now
                &&& a.resolved_at is None
                &&& (ctx.new_status == HealthStatus::Critical ==> a.metric
                    == ctx.critical_metrics[i].metric && a.value == Some(
                    ctx.critical_metrics[i].value,
                ))
                &&& (ctx.new_status == HealthStatus::Offline ==> a.metric == AlertMetric::Offline
                    && a.value is None)
            },
{
}

/// A recovery happens only to an active alert, on a healthy or warning
/// report, once the quiet period has lasted `recovery_seconds`; it closes
/// the alert and raises nothing.
pub proof fn lemma_recovery_needs_quiet_period(ctx: AlertContextView, now: Timestamp, ids: Seq<u128>)
    requires
        decide(ctx, now, ids).recovered,
    ensures
        ctx.old_alert_active,
        !is_alarm(ctx.new_status),
        whole_seconds_between(now, quiet_since(ctx, now)) >= ctx.alert_config.recovery_seconds,
        !decide(ctx, now, ids).new_alert_active,
        decide(ctx, now, ids).alerts.len() == 0,
{
}

/// A healthy or warning report for a server without an active alert changes
/// nothing: no alert, no recovery, and the time of the last alert is kept.
pub proof fn lemma_quiet_without_alert(ctx: AlertContextView, now: Timestamp, ids: Seq<u128>)
    requires
        !is_alarm(ctx.new_status),
        !ctx.old_alert_active,
    ensures
        decide(ctx, now, ids) == (AlertDecisionView {
            alerts: Seq::empty(),
            recovered: false,
            new_alert_active: false,
            new_recovery_since: None,
            new_last_alert_at: ctx.old_last_alert_at,
        }),
{
}

/// Recovery hysteresis over two reports. The first healthy or warning report
/// after an alarm starts the quiet period at its own time `first_at` and, when
/// `recovery_seconds` is positive, keeps the alert. A later healthy or
/// warning report, fed the state the first one left, resolves the alert
/// exactly when at least `recovery_seconds` whole seconds separate the two.
pub proof fn lemma_recovery_after_quiet_period(
    first: AlertContextView,
    first_at: Timestamp,
    second: AlertContextView,
    second_at: Timestamp,
    ids: Seq<u128>,
)
    requires
        first.old_alert_active,
        first.old_recovery_since is None,
        !is_alarm(first.new_status),
        first.alert_config.recovery_seconds > 0,
        second.old_alert_active == decide(first, first_at, ids).new_alert_active,
        second.old_recovery_since == decide(first, first_at, ids).new_recovery_since,
        second.alert_config == first.alert_config,
        !is_alarm(second.new_status),
    ensures
        !decide(first, first_at, ids).recovered,
        decide(first, first_at, ids).new_alert_active,
        decide(first, first_at, ids).new_recovery_since == Some(first_at),
        decide(second, second_at, ids).recovered <==> whole_seconds_between(second_at, first_at)
            >= first.alert_config.recovery_seconds,
{
    assert(whole_seconds_between(first_at, first_at) == 0);
}

} // verus!
