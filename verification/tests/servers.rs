use middle_mqtt::alerts::dispatcher::{alert_events, AlertEvent};
use middle_mqtt::alerts::engine::{evaluate_at, AlertContext, CriticalMetric};
use middle_mqtt::alerts::repository::{alert_from_row, assemble_alert, AlertRow};
use middle_mqtt::device_health::{DeviceHealth as LegacyHealth, NetworkStats as LegacyNetwork};
use middle_mqtt::domain::alert::AlertMetric;
use middle_mqtt::domain::health::DeviceHealth;
use middle_mqtt::domain::state::ServerState;
use middle_mqtt::domain::status::HealthStatus;
use middle_mqtt::domain::time::Timestamp;
use middle_mqtt::infrastructure::config::AlertConfig;
use middle_mqtt::mqtt::consumer::{apply_health_report, client_id_at};
use middle_mqtt::state::offline_checker::check_offline;
use middle_mqtt::state::offline_checkers::mark_offline;
use middle_mqtt::state::repository::{parse_server_db_id, server_from_row};
use middle_mqtt::system::{parse_uuid, timestamp_in_range, MAX_CHRONO_SECS, MIN_CHRONO_SECS};
use middle_mqtt::validation::engine::{MetricFlags, ThresholdChecks};
use middle_mqtt::websocket::dto::WsServerUpdate;

const CONFIG: AlertConfig = AlertConfig { recovery_seconds: 120, buffer_size: 100 };
const NO_FLAGS: MetricFlags = MetricFlags { cpu: false, memory: false, temp: false };

fn reported(ts: i64, status: HealthStatus) -> ServerState {
    let mut s = server_from_row(12, "web".to_string());
    s.health.timestamp = ts;
    s.status = status;
    s
}

#[test]
fn rows_become_offline_servers() {
    let s = server_from_row(-34, "db".to_string());
    assert_eq!(s.server_id, "-34");
    assert_eq!(s.name, "db");
    assert_eq!(s.status, HealthStatus::Offline);
    assert!(!s.alert_active);
    assert_eq!(s.health.timestamp, 0);
    assert_eq!(s.recovery_since, None);
}

#[test]
fn server_ids_parse_back_to_row_ids() {
    assert_eq!(parse_server_db_id("12"), Ok(12));
    assert_eq!(parse_server_db_id("-7"), Ok(-7));
    assert_eq!(
        parse_server_db_id("web-1"),
        Err("El server_id debe ser un número válido".to_string())
    );
    let s = server_from_row(i64::MIN, "x".to_string());
    assert_eq!(parse_server_db_id(&s.server_id), Ok(i64::MIN));
}

#[test]
fn stale_server_goes_offline_once() {
    let mut s = reported(1000, HealthStatus::Healthy);
    assert!(check_offline(&mut s, 1010, &NO_FLAGS, &CONFIG).is_none());
    assert_eq!(s.status, HealthStatus::Healthy);
    let d = check_offline(&mut s, 1011, &NO_FLAGS, &CONFIG).expect("goes offline");
    assert_eq!(s.status, HealthStatus::Offline);
    assert_eq!(d.alerts.len(), 1);
    assert_eq!(d.alerts[0].metric, AlertMetric::Offline);
    assert_eq!(d.alerts[0].server_id, "12");
    assert!(s.alert_active);
    assert_eq!(s.last_alert_at, d.new_last_alert_at);
    assert!(check_offline(&mut s, 5000, &NO_FLAGS, &CONFIG).is_none());
}

#[test]
fn already_alerting_server_goes_offline_silently() {
    let mut s = reported(0, HealthStatus::Critical);
    s.alert_active = true;
    let d = check_offline(&mut s, 100, &NO_FLAGS, &CONFIG).expect("goes offline");
    assert!(d.alerts.is_empty());
    assert!(s.alert_active);
}

#[test]
fn simple_sweep_marks_offline() {
    let mut s = reported(50, HealthStatus::Warning);
    assert!(!mark_offline(&mut s, 60));
    assert!(mark_offline(&mut s, 61));
    assert_eq!(s.status, HealthStatus::Offline);
    assert!(!mark_offline(&mut s, 1000));
}

fn report(cpu: f32) -> DeviceHealth {
    let mut h = DeviceHealth::empty();
    h.server_id = "s1".to_string();
    h.timestamp = 1_700_000_000;
    h.cpu = cpu.to_bits();
    h
}

#[test]
fn first_report_of_unknown_server() {
    let checks = ThresholdChecks {
        warning: MetricFlags { cpu: true, memory: false, temp: false },
        critical: MetricFlags { cpu: true, memory: false, temp: false },
    };
    let out = apply_health_report("s1".to_string(), report(97.0), &checks, None, &CONFIG);
    assert_eq!(out.state.server_id, "s1");
    assert_eq!(out.state.name, "s1");
    assert_eq!(out.state.status, HealthStatus::Critical);
    assert!(out.state.alert_active);
    assert_eq!(out.decision.alerts.len(), 1);
    assert_eq!(out.decision.alerts[0].metric, AlertMetric::Cpu);
    assert_eq!(out.decision.alerts[0].value, Some(97.0f32.to_bits()));
    assert_eq!(out.decision.alerts[0].server_name, "s1");
    assert_eq!(out.state.health.cpu, 97.0f32.to_bits());
}

#[test]
fn report_keeps_known_name_and_alert_state() {
    let mut previous = server_from_row(1, "web".to_string());
    previous.alert_active = true;
    let checks = ThresholdChecks { warning: NO_FLAGS, critical: NO_FLAGS };
    let out = apply_health_report("1".to_string(), report(10.0), &checks, Some(&previous), &CONFIG);
    assert_eq!(out.state.name, "web");
    assert_eq!(out.state.status, HealthStatus::Healthy);
    assert!(out.decision.alerts.is_empty());
    assert!(out.state.alert_active);
    assert!(out.state.recovery_since.is_some());
}

#[test]
fn decision_events_in_order() {
    let status = HealthStatus::Critical;
    let metrics = [
        CriticalMetric { metric: AlertMetric::Cpu, value: 1 },
        CriticalMetric { metric: AlertMetric::Temp, value: 2 },
    ];
    let ctx = AlertContext {
        server_id: "s",
        server_name: "n",
        old_alert_active: false,
        old_recovery_since: None,
        old_last_alert_at: None,
        new_status: &status,
        critical_metrics: &metrics,
        alert_config: &CONFIG,
    };
    let d = evaluate_at(&ctx, Timestamp { secs: 1, nanos: 0 }, &[5, 6]);
    let events = alert_events(d, "s", "n");
    assert_eq!(events.len(), 2);
    match (&events[0], &events[1]) {
        (AlertEvent::New(a), AlertEvent::New(b)) => {
            assert_eq!(a.id, 5);
            assert_eq!(b.id, 6);
        }
        _ => panic!("expected two new alerts"),
    }
    let quiet = HealthStatus::Healthy;
    let ctx = AlertContext { old_alert_active: true, new_status: &quiet, critical_metrics: &[], ..ctx };
    let cfg0 = AlertConfig { recovery_seconds: 0, buffer_size: 1 };
    let ctx = AlertContext { alert_config: &cfg0, ..ctx };
    let d = evaluate_at(&ctx, Timestamp { secs: 2, nanos: 0 }, &[]);
    let events = alert_events(d, "s", "n");
    match &events[..] {
        [AlertEvent::Recovery { server_id, server_name }] => {
            assert_eq!(server_id, "s");
            assert_eq!(server_name, "n");
        }
        _ => panic!("expected one recovery"),
    }
}

#[test]
fn session_client_ids_carry_milliseconds() {
    assert_eq!(client_id_at("mw", Timestamp { secs: 1_700_000_000, nanos: 123_456_789 }), "mw_1700000000123");
    assert_eq!(client_id_at("mw", Timestamp { secs: 0, nanos: 0 }), "mw_0");
}

#[test]
fn stored_rows_become_alerts() {
    let row = AlertRow {
        id: "67e55044-10b1-426f-9247-bb680e5fe0c8".to_string(),
        server_id: "3".to_string(),
        server_name: "db".to_string(),
        metric: None,
        value: None,
        timestamp: 1_700_000_000,
        resolved_at: Some(i64::MAX),
    };
    let a = alert_from_row(row.clone());
    assert_eq!(a.id, 0x67e5504410b1426f9247bb680e5fe0c8);
    assert_eq!(a.metric, AlertMetric::Offline);
    assert_eq!(a.timestamp, Timestamp { secs: 1_700_000_000, nanos: 0 });
    assert_eq!(a.resolved_at, None);
    let bad = AlertRow { id: "not-a-uuid".to_string(), timestamp: i64::MIN, resolved_at: Some(5), ..row };
    let b = alert_from_row(bad.clone());
    assert_eq!(b.timestamp, Timestamp { secs: 0, nanos: 0 });
    assert_eq!(b.resolved_at, Some(Timestamp { secs: 5, nanos: 0 }));
    let c = assemble_alert(bad, None, 77, true, false);
    assert_eq!(c.id, 77);
    assert_eq!(c.timestamp, Timestamp { secs: i64::MIN, nanos: 0 });
    assert_eq!(c.resolved_at, None);
}

#[test]
fn outside_readers() {
    assert!(timestamp_in_range(0));
    assert!(timestamp_in_range(1_700_000_000));
    assert!(!timestamp_in_range(i64::MAX));
    assert_eq!(parse_uuid("00000000-0000-0000-0000-000000000001"), Some(1));
    assert_eq!(parse_uuid("zz"), None);
}

#[test]
fn dashboard_update_mirrors_state() {
    let mut s = reported(99, HealthStatus::Warning);
    s.health.network.out_value = 3.5f32.to_bits();
    let u = WsServerUpdate::from_state(&s);
    assert_eq!(u.server_id, "12");
    assert_eq!(u.name, "web");
    assert_eq!(u.timestamp, 99);
    assert_eq!(u.status, HealthStatus::Warning);
    assert_eq!(f32::from_bits(u.network_out), 3.5);
}

#[test]
fn legacy_report_marked_unhealthy() {
    let mut h = LegacyHealth {
        timestamp: "2025-01-01T00:00:00Z".to_string(),
        cpu: 45.2f32.to_bits(),
        temp: 68.1f32.to_bits(),
        memory: 72.0f32.to_bits(),
        network: LegacyNetwork { in_value: 56.3f32.to_bits(), out_value: 42.7f32.to_bits() },
        uptime: 123456,
        status: "healthy".to_string(),
    };
    h.mark_unhealthy();
    assert_eq!(h.status, "unhealthy");
    assert_eq!(h.uptime, 123456);
}

#[test]
fn chrono_range_bounds() {
    assert_eq!(
        (chrono::DateTime::<chrono::Utc>::MIN_UTC.timestamp(), chrono::DateTime::<chrono::Utc>::MAX_UTC.timestamp()),
        (MIN_CHRONO_SECS, MAX_CHRONO_SECS)
    );

    assert!(timestamp_in_range(MIN_CHRONO_SECS));
    assert!(!timestamp_in_range(MIN_CHRONO_SECS - 1));
    assert!(timestamp_in_range(MAX_CHRONO_SECS));
    assert!(!timestamp_in_range(MAX_CHRONO_SECS + 1));
    assert_eq!(chrono::DateTime::<chrono::Utc>::MIN_UTC.timestamp(), MIN_CHRONO_SECS);
    assert_eq!(chrono::DateTime::<chrono::Utc>::MAX_UTC.timestamp(), MAX_CHRONO_SECS);
}
