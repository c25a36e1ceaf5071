use middle_mqtt::alerts::engine::{
    evaluate, evaluate_at, get_critical_metrics, AlertContext, CriticalMetric,
};
use middle_mqtt::domain::alert::AlertMetric;
use middle_mqtt::domain::health::DeviceHealth;
use middle_mqtt::domain::status::HealthStatus;
use middle_mqtt::domain::time::{seconds_between, Timestamp};
use middle_mqtt::infrastructure::config::AlertConfig;
use middle_mqtt::validation::engine::{determine_status, MetricFlags, ThresholdChecks};

const CONFIG: AlertConfig = AlertConfig { recovery_seconds: 120, buffer_size: 100 };

fn at(secs: i64, nanos: u32) -> Timestamp {
    Timestamp { secs, nanos }
}

fn ctx<'a>(
    status: &'a HealthStatus,
    metrics: &'a [CriticalMetric],
    active: bool,
    since: Option<Timestamp>,
    last: Option<Timestamp>,
    config: &'a AlertConfig,
) -> AlertContext<'a> {
    AlertContext {
        server_id: "s1",
        server_name: "web",
        old_alert_active: active,
        old_recovery_since: since,
        old_last_alert_at: last,
        new_status: status,
        critical_metrics: metrics,
        alert_config: config,
    }
}

fn health(cpu: f32, memory: f32, temp: f32) -> DeviceHealth {
    let mut h = DeviceHealth::empty();
    h.cpu = cpu.to_bits();
    h.memory = memory.to_bits();
    h.temp = temp.to_bits();
    h
}

#[test]
fn critical_metrics_in_cpu_temp_memory_order() {
    let h = health(95.0, 93.0, 88.0);
    let all = MetricFlags { cpu: true, memory: true, temp: true };
    let m = get_critical_metrics(&h, &all);
    assert_eq!(
        m,
        vec![
            CriticalMetric { metric: AlertMetric::Cpu, value: 95.0f32.to_bits() },
            CriticalMetric { metric: AlertMetric::Temp, value: 88.0f32.to_bits() },
            CriticalMetric { metric: AlertMetric::Memory, value: 93.0f32.to_bits() },
        ]
    );
    let none = MetricFlags { cpu: false, memory: false, temp: false };
    assert!(get_critical_metrics(&h, &none).is_empty());
    let mem = MetricFlags { cpu: false, memory: true, temp: false };
    assert_eq!(
        get_critical_metrics(&h, &mem),
        vec![CriticalMetric { metric: AlertMetric::Memory, value: 93.0f32.to_bits() }]
    );
}

#[test]
fn critical_report_opens_one_alert_per_metric() {
    let status = HealthStatus::Critical;
    let metrics = [
        CriticalMetric { metric: AlertMetric::Cpu, value: 95.0f32.to_bits() },
        CriticalMetric { metric: AlertMetric::Memory, value: 91.0f32.to_bits() },
    ];
    let c = ctx(&status, &metrics, false, None, None, &CONFIG);
    let now = at(1000, 5);
    let d = evaluate_at(&c, now, &[11, 22]);
    assert_eq!(d.alerts.len(), 2);
    assert_eq!(d.alerts[0].id, 11);
    assert_eq!(d.alerts[1].id, 22);
    assert_eq!(d.alerts[0].metric, AlertMetric::Cpu);
    assert_eq!(d.alerts[1].metric, AlertMetric::Memory);
    assert_eq!(d.alerts[1].value, Some(91.0f32.to_bits()));
    assert_eq!(d.alerts[0].server_id, "s1");
    assert_eq!(d.alerts[0].server_name, "web");
    assert_eq!(d.alerts[0].timestamp, now);
    assert_eq!(d.alerts[0].resolved_at, None);
    assert!(d.new_alert_active);
    assert!(!d.recovered);
    assert_eq!(d.new_recovery_since, None);
    assert_eq!(d.new_last_alert_at, Some(now));
}

#[test]
fn offline_report_opens_one_offline_alert() {
    let status = HealthStatus::Offline;
    let c = ctx(&status, &[], false, None, Some(at(5, 0)), &CONFIG);
    let d = evaluate_at(&c, at(900, 0), &[7]);
    assert_eq!(d.alerts.len(), 1);
    assert_eq!(d.alerts[0].metric, AlertMetric::Offline);
    assert_eq!(d.alerts[0].value, None);
    assert_eq!(d.alerts[0].id, 7);
    assert!(d.new_alert_active);
    assert_eq!(d.new_last_alert_at, Some(at(900, 0)));
}

#[test]
fn active_alert_raises_nothing_new() {
    for status in [HealthStatus::Critical, HealthStatus::Offline] {
        let metrics = [CriticalMetric { metric: AlertMetric::Temp, value: 1 }];
        let c = ctx(&status, &metrics, true, Some(at(1, 0)), Some(at(2, 0)), &CONFIG);
        let d = evaluate_at(&c, at(50, 0), &[]);
        assert!(d.alerts.is_empty());
        assert!(d.new_alert_active);
        assert!(!d.recovered);
        assert_eq!(d.new_recovery_since, None);
        assert_eq!(d.new_last_alert_at, Some(at(2, 0)));
    }
}

#[test]
fn quiet_report_without_alert_changes_nothing() {
    for status in [HealthStatus::Healthy, HealthStatus::Warning] {
        let c = ctx(&status, &[], false, None, Some(at(3, 0)), &CONFIG);
        let d = evaluate_at(&c, at(60, 0), &[]);
        assert!(d.alerts.is_empty());
        assert!(!d.new_alert_active);
        assert!(!d.recovered);
        assert_eq!(d.new_recovery_since, None);
        assert_eq!(d.new_last_alert_at, Some(at(3, 0)));
    }
}

#[test]
fn first_quiet_report_starts_recovery_period() {
    let status = HealthStatus::Healthy;
    let c = ctx(&status, &[], true, None, Some(at(3, 0)), &CONFIG);
    let d = evaluate_at(&c, at(100, 0), &[]);
    assert!(!d.recovered);
    assert!(d.new_alert_active);
    assert_eq!(d.new_recovery_since, Some(at(100, 0)));
}

#[test]
fn recovery_after_full_period_only() {
    let status = HealthStatus::Warning;
    let since = Some(at(100, 500_000_000));
    let c = ctx(&status, &[], true, since, Some(at(3, 0)), &CONFIG);
    // 119.9 s: not yet
    let d = evaluate_at(&c, at(220, 400_000_000), &[]);
    assert!(!d.recovered);
    assert!(d.new_alert_active);
    assert_eq!(d.new_recovery_since, since);
    // exactly 120 s
    let d = evaluate_at(&c, at(220, 500_000_000), &[]);
    assert!(d.recovered);
    assert!(!d.new_alert_active);
    assert_eq!(d.new_recovery_since, None);
    assert_eq!(d.new_last_alert_at, Some(at(3, 0)));
}

#[test]
fn zero_recovery_period_recovers_at_once() {
    let config = AlertConfig { recovery_seconds: 0, buffer_size: 1 };
    let status = HealthStatus::Healthy;
    let c = ctx(&status, &[], true, None, None, &config);
    let d = evaluate_at(&c, at(10, 0), &[]);
    assert!(d.recovered);
    assert!(!d.new_alert_active);
}

#[test]
fn two_report_recovery() {
    let status = HealthStatus::Healthy;
    let first = evaluate_at(&ctx(&status, &[], true, None, None, &CONFIG), at(1000, 0), &[]);
    assert!(!first.recovered);
    let c2 = ctx(&status, &[], first.new_alert_active, first.new_recovery_since, None, &CONFIG);
    assert!(!evaluate_at(&c2, at(1119, 999_999_999), &[]).recovered);
    assert!(evaluate_at(&c2, at(1120, 0), &[]).recovered);
}

#[test]
fn evaluate_uses_current_time() {
    let status = HealthStatus::Critical;
    let metrics = [
        CriticalMetric { metric: AlertMetric::Cpu, value: 1 },
        CriticalMetric { metric: AlertMetric::Temp, value: 2 },
    ];
    let d = evaluate(ctx(&status, &metrics, false, None, None, &CONFIG));
    assert_eq!(d.alerts.len(), 2);
    assert!(d.alerts[0].timestamp.secs > 1_600_000_000);
    assert_eq!(d.new_last_alert_at, Some(d.alerts[0].timestamp));
}

#[test]
fn whole_seconds_truncate_toward_zero() {
    assert_eq!(seconds_between(at(10, 0), at(5, 0)), 5);
    assert_eq!(seconds_between(at(10, 100), at(5, 200)), 4);
    assert_eq!(seconds_between(at(5, 200), at(10, 100)), -4);
    assert_eq!(seconds_between(at(5, 0), at(10, 0)), -5);
    assert_eq!(seconds_between(at(i64::MAX, 0), at(i64::MIN, 0)), u64::MAX as i128);
}

#[test]
fn critical_status_matches_critical_readings() {
    let h = health(50.0, 95.0, 40.0);
    for critical in [
        MetricFlags { cpu: false, memory: false, temp: false },
        MetricFlags { cpu: false, memory: true, temp: false },
        MetricFlags { cpu: true, memory: true, temp: true },
    ] {
        let checks = ThresholdChecks { warning: critical, critical };
        let is_critical = determine_status(&checks) == HealthStatus::Critical;
        assert_eq!(is_critical, !get_critical_metrics(&h, &critical).is_empty());
    }
}
